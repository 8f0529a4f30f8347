//! The text of a report: the numbered chain of causes, the hints, and the
//! sections for the span trace and the backtrace.

use std::fmt::Write;
use vstd::prelude::*;
use crate::chain::{Chain, LinkView};
use crate::help::{help_texts, HelpInfo};
use crate::trace::{
    BacktraceRecord, BacktraceRecordView, BacktraceStatus, SpanTraceRecord, SpanTraceRecordView,
    SpanTraceStatus,
};

verus! {

/// The text that `indenter` produces for one numbered entry: what comes out
/// when `message` is written through `Indented::numbered` with number `index`.
pub uninterp spec fn numbered_text(index: usize, message: Seq<char>) -> Seq<char>;

/// Runs `indenter::Indented::numbered` over `message`, into a fresh string.
/// The crate numbers the first line that holds text and indents the lines
/// after it; the contract gives that text its name and claims nothing else.
#[verifier::external_body]
fn numbered(index: usize, message: &str) -> (entry: String)
    ensures
        entry@ == numbered_text(index, message@),
{
    let mut entry = String::new();
    let _ = write!(indenter::Indented::numbered(&mut entry, index), "{}", message);
    entry
}

/// The pieces one after another, each with `lead` in front of it.
pub open spec fn led_by(lead: Seq<char>, pieces: Seq<Seq<char>>) -> Seq<char>
    decreases pieces.len(),
{
    if pieces.len() == 0 {
        Seq::empty()
    } else {
        led_by(lead, pieces.drop_last()) + lead + pieces.last()
    }
}

/// The views of a list of strings.
pub open spec fn texts(strings: Seq<String>) -> Seq<Seq<char>> {
    strings.map_values(|text: String| text@)
}

/// The display message of each link, in chain order.
pub open spec fn messages(links: Seq<LinkView>) -> Seq<Seq<char>> {
    links.map_values(|link: LinkView| link.message)
}

/// The single line that shows an error: the head's message and, in the
/// alternate form, the message of every cause after it, each behind `": "`.
pub open spec fn display_text(links: Seq<LinkView>, alternate: bool) -> Seq<char> {
    if alternate {
        links[0].message + led_by(": "@, messages(links).skip(1))
    } else {
        links[0].message
    }
}

/// The numbered entries of a chain: entry `n` is the link that lies `n`
/// places above the innermost cause, so entry 0 is the innermost cause and
/// the last entry is the head.
pub open spec fn chain_entries(links: Seq<LinkView>) -> Seq<Seq<char>> {
    Seq::new(
        links.len(),
        |n: int| numbered_text(n as usize, links[links.len() - 1 - n].message),
    )
}

/// The section that a span trace adds to a report.
pub open spec fn span_trace_section(trace: SpanTraceRecordView) -> Seq<char> {
    match trace.status {
        SpanTraceStatus::Captured => "\n\nSpan Trace:\n"@ + trace.text,
        SpanTraceStatus::Unsupported =>
            "\n\nWarning: SpanTrace capture is Unsupported.\nEnsure that you've setup an error layer and the versions match"@,
        SpanTraceStatus::Empty => Seq::empty(),
    }
}

/// The section that a backtrace adds to a report.
pub open spec fn backtrace_section(trace: BacktraceRecordView) -> Seq<char> {
    match trace.status {
        BacktraceStatus::Captured => "\n\nStack Backtrace:\n"@ + trace.text,
        _ => Seq::empty(),
    }
}

/// A whole report: every entry and then every hint on a line of its own,
/// then the span trace section, then the backtrace section.
pub open spec fn report_text(
    entries: Seq<Seq<char>>,
    help: Seq<Seq<char>>,
    span_trace: SpanTraceRecordView,
    backtrace: BacktraceRecordView,
) -> Seq<char> {
    led_by("\n"@, entries) + led_by("\n"@, help) + span_trace_section(span_trace)
        + backtrace_section(backtrace)
}

/// The chain is numbered from the innermost cause: entry `n` shows the link
/// that lies `n` places above the end of the chain, under the number `n`.
pub proof fn lemma_entries_count_from_innermost(links: Seq<LinkView>, n: int)
    requires
        0 <= n < links.len(),
    ensures
        chain_entries(links).len() == links.len(),
        chain_entries(links)[n] == numbered_text(n as usize, links[links.len() - 1 - n].message),
{
}

/// A chain of three links, however it was put together, is shown as the
/// innermost cause under 0, the middle link under 1 and the head under 2,
/// each on a line of its own.
pub proof fn lemma_three_links_numbered(head: LinkView, middle: LinkView, innermost: LinkView)
    ensures
        led_by("\n"@, chain_entries(seq![head, middle, innermost])) == "\n"@ + numbered_text(
            0,
            innermost.message,
        ) + "\n"@ + numbered_text(1, middle.message) + "\n"@ + numbered_text(2, head.message),
{
    let entries = chain_entries(seq![head, middle, innermost]);
    let two = entries.drop_last();
    let one = two.drop_last();
    assert(one.drop_last() =~= Seq::<Seq<char>>::empty());
    assert(led_by("\n"@, one) =~= "\n"@ + numbered_text(0, innermost.message)) by {
        reveal_with_fuel(led_by, 2);
    }
    assert(led_by("\n"@, two) =~= led_by("\n"@, one) + "\n"@ + numbered_text(1, middle.message));
    assert(led_by("\n"@, entries) =~= led_by("\n"@, two) + "\n"@ + numbered_text(
        2,
        head.message,
    ));
}

/// Pieces added at the end come out at the end, in the order in which they
/// were added.
pub proof fn lemma_led_by_push(lead: Seq<char>, pieces: Seq<Seq<char>>, piece: Seq<char>)
    ensures
        led_by(lead, pieces.push(piece)) == led_by(lead, pieces) + lead + piece,
{
    assert(pieces.push(piece).drop_last() =~= pieces);
}

/// The numbered entry of every link, the innermost cause first.
pub fn numbered_entries(chain: &Chain) -> (entries: Vec<String>)
    ensures
        texts(entries@) == chain_entries(chain@),
{
    let len = chain.len();
    let mut entries: Vec<String> = Vec::new();
    let mut n: usize = 0;
    while n < len
        invariant
            n <= len,
            len == chain@.len(),
            entries@.len() == n,
            forall|k: int| 0 <= k < n ==> (#[trigger] entries@[k])@ == chain_entries(chain@)[k],
        decreases len - n,
    {
        let entry = numbered(n, chain.link(len - 1 - n).message.as_str());
        entries.push(entry);
        n += 1;
    }
    assert(texts(entries@) =~= chain_entries(chain@));
    entries
}

/// Puts a report together from its parts.
pub fn compose_report(
    entries: &Vec<String>,
    help: &Vec<HelpInfo>,
    span_trace: &SpanTraceRecord,
    backtrace: &BacktraceRecord,
) -> (report: String)
    ensures
        report@ == report_text(texts(entries@), help_texts(help@), span_trace@, backtrace@),
{
    let mut report = String::new();
    let mut n: usize = 0;
    while n < entries.len()
        invariant
            n <= entries@.len(),
            report@ == led_by("\n"@, texts(entries@).take(n as int)),
        decreases entries@.len() - n,
    {
        report.append("\n");
        report.append(entries[n].as_str());
        proof {
            let upto = texts(entries@).take(n + 1);
            assert(upto.drop_last() =~= texts(entries@).take(n as int));
            assert(upto.last() == entries@[n as int]@);
        }
        n += 1;
    }
    assert(texts(entries@).take(n as int) =~= texts(entries@));
    let ghost block = report@;
    let mut h: usize = 0;
    while h < help.len()
        invariant
            h <= help@.len(),
            report@ == block + led_by("\n"@, help_texts(help@).take(h as int)),
        decreases help@.len() - h,
    {
        report.append("\n");
        report.append(help[h].text.as_str());
        proof {
            let upto = help_texts(help@).take(h + 1);
            assert(upto.drop_last() =~= help_texts(help@).take(h as int));
            assert(upto.last() == help@[h as int]@);
        }
        h += 1;
    }
    assert(help_texts(help@).take(h as int) =~= help_texts(help@));
    match span_trace.status {
        SpanTraceStatus::Captured => {
            report.append("\n\nSpan Trace:\n");
            report.append(span_trace.text.as_str());
        },
        SpanTraceStatus::Unsupported => {
            report.append(
                "\n\nWarning: SpanTrace capture is Unsupported.\nEnsure that you've setup an error layer and the versions match",
            );
        },
        SpanTraceStatus::Empty => {},
    }
    match backtrace.status {
        BacktraceStatus::Captured => {
            report.append("\n\nStack Backtrace:\n");
            report.append(backtrace.text.as_str());
        },
        _ => {},
    }
    report
}

} // verus!
