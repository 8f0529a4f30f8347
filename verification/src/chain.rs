//! The chain of causes behind a reported error, held as plain values.

use vstd::prelude::*;
use crate::trace::{
    option_view, BacktraceRecord, BacktraceRecordView, SpanTraceRecord, SpanTraceRecordView,
};

verus! {

/// One error of a cause chain: what it prints and the traces it carries.
#[derive(Clone, Debug)]
pub struct Link {
    /// The error's single-line display message.
    pub message: String,
    /// The error's own structural debug representation.
    pub detail: String,
    /// The backtrace that the error carries, if it captured one.
    pub backtrace: Option<BacktraceRecord>,
    /// The span trace that the error carries, if it captured one.
    pub span_trace: Option<SpanTraceRecord>,
}

/// The mathematical value of a [`Link`].
pub struct LinkView {
    pub message: Seq<char>,
    pub detail: Seq<char>,
    pub backtrace: Option<BacktraceRecordView>,
    pub span_trace: Option<SpanTraceRecordView>,
}

impl View for Link {
    type V = LinkView;

    open spec fn view(&self) -> LinkView {
        LinkView {
            message: self.message@,
            detail: self.detail@,
            backtrace: option_view(self.backtrace),
            span_trace: option_view(self.span_trace),
        }
    }
}

impl Link {
    /// A link that carries no trace.
    pub fn new(message: String, detail: String) -> (link: Link)
        ensures
            link@ == (LinkView {
                message: message@,
                detail: detail@,
                backtrace: None,
                span_trace: None,
            }),
    {
        Link { message, detail, backtrace: None, span_trace: None }
    }
}

/// A cause chain: the head (the outermost error) first, each link followed by
/// its cause, the innermost cause last. A chain always has a head.
pub struct Chain {
    links: Vec<Link>,
}

impl View for Chain {
    type V = Seq<LinkView>;

    closed spec fn view(&self) -> Seq<LinkView> {
        self.links@.map_values(|link: Link| link@)
    }
}

impl Chain {
    #[verifier::type_invariant]
    spec fn has_head(self) -> bool {
        self.links@.len() > 0
    }

    /// The chain of an error without a cause.
    pub fn new(head: Link) -> (chain: Chain)
        ensures
            chain@ == seq![head@],
    {
        let mut links: Vec<Link> = Vec::new();
        links.push(head);
        assert(links@.map_values(|link: Link| link@) =~= seq![head@]);
        Chain { links }
    }

    /// The chain with `cause` added as the cause of its innermost link.
    pub fn with_cause(self, cause: Link) -> (chain: Chain)
        ensures
            chain@ == self@.push(cause@),
    {
        proof {
            use_type_invariant(&self);
        }
        let ghost before = self.links@;
        let mut links = self.links;
        links.push(cause);
        assert(links@.map_values(|link: Link| link@) =~= before.map_values(|link: Link| link@).push(
            cause@,
        ));
        Chain { links }
    }

    /// The number of links, the head included.
    pub fn len(&self) -> (n: usize)
        ensures
            n == self@.len(),
            n > 0,
    {
        proof {
            use_type_invariant(self);
        }
        self.links.len()
    }

    /// The link at `index`, counted from the head.
    pub fn link(&self, index: usize) -> (link: &Link)
        requires
            index < self@.len(),
        ensures
            link@ == self@[index as int],
    {
        &self.links[index]
    }

    /// The outermost error.
    pub fn head(&self) -> (link: &Link)
        ensures
            link@ == self@[0],
    {
        proof {
            use_type_invariant(self);
        }
        &self.links[0]
    }
}

} // verus!
