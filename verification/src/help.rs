//! Remediation hints that a caller attaches to an error after it was raised.

use vstd::prelude::*;

verus! {

/// One hint, shown on a line of its own under the chain of causes.
#[derive(Clone, Debug)]
pub struct HelpInfo {
    pub text: String,
}

impl View for HelpInfo {
    type V = Seq<char>;

    open spec fn view(&self) -> Seq<char> {
        self.text@
    }
}

impl HelpInfo {
    /// A hint with the given text.
    pub fn new(text: String) -> (hint: HelpInfo)
        ensures
            hint@ == text@,
    {
        HelpInfo { text }
    }
}

/// The texts of a list of hints, in the order in which they were added.
pub open spec fn help_texts(help: Seq<HelpInfo>) -> Seq<Seq<char>> {
    help.map_values(|hint: HelpInfo| hint@)
}

} // verus!
