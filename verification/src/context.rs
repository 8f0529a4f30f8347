//! The context of one error report: the traces captured when the error was
//! raised and the hints attached to it since.

use vstd::prelude::*;
use crate::chain::{Chain, LinkView};
use crate::help::{help_texts, HelpInfo};
use crate::locate::{
    backtraces, deepest_backtrace, deepest_span_trace, get_deepest_backtrace,
    get_deepest_spantrace, lemma_deepest_is_innermost, lemma_deepest_of_wrapped, span_traces,
};
use crate::render::{
    backtrace_section, chain_entries, compose_report, display_text, led_by, lemma_led_by_push,
    messages, numbered_entries, report_text, span_trace_section,
};
use crate::trace::{
    option_view, BacktraceRecord, BacktraceRecordView, SpanTraceRecord, SpanTraceRecordView,
};

verus! {

/// What a report holds beside its chain of causes.
pub struct JaneContext {
    backtrace: Option<BacktraceRecord>,
    span_trace: Option<SpanTraceRecord>,
    help: Vec<HelpInfo>,
}

/// The mathematical value of a [`JaneContext`].
pub struct JaneContextView {
    pub backtrace: Option<BacktraceRecordView>,
    pub span_trace: Option<SpanTraceRecordView>,
    pub help: Seq<Seq<char>>,
}

impl View for JaneContext {
    type V = JaneContextView;

    closed spec fn view(&self) -> JaneContextView {
        JaneContextView {
            backtrace: option_view(self.backtrace),
            span_trace: option_view(self.span_trace),
            help: help_texts(self.help@),
        }
    }
}

/// The fields of a context that can be asked for by kind.
#[derive(Clone, Copy, Debug, PartialEq, Eq, Structural)]
pub enum MemberKind {
    /// The backtrace captured at construction.
    Backtrace,
    /// The span trace captured at construction.
    SpanTrace,
    /// The list of hints.
    Help,
}

/// A shared reference to a field of a context.
#[derive(Clone, Copy, Debug)]
pub enum MemberRef<'a> {
    Backtrace(&'a BacktraceRecord),
    SpanTrace(&'a SpanTraceRecord),
}

/// The mathematical value of a [`MemberRef`].
pub enum MemberView {
    Backtrace(BacktraceRecordView),
    SpanTrace(SpanTraceRecordView),
}

impl View for MemberRef<'_> {
    type V = MemberView;

    open spec fn view(&self) -> MemberView {
        match *self {
            MemberRef::Backtrace(trace) => MemberView::Backtrace(trace@),
            MemberRef::SpanTrace(trace) => MemberView::SpanTrace(trace@),
        }
    }
}

/// What a shared request for `kind` yields: the trace of that kind where the
/// context holds it, and nothing for the hints, which are handed out only
/// for writing.
pub open spec fn member_of(context: JaneContextView, kind: MemberKind) -> Option<MemberView> {
    match kind {
        MemberKind::Backtrace => match context.backtrace {
            Some(trace) => Some(MemberView::Backtrace(trace)),
            None => None,
        },
        MemberKind::SpanTrace => match context.span_trace {
            Some(trace) => Some(MemberView::SpanTrace(trace)),
            None => None,
        },
        MemberKind::Help => None,
    }
}

/// A context is fresh for a chain when it holds exactly the traces that the
/// chain lacks: a backtrace if and only if no link carries one, and a span
/// trace likewise.
pub open spec fn fresh_for(context: JaneContextView, links: Seq<LinkView>) -> bool {
    &&& context.backtrace is Some <==> deepest_backtrace(links) is None
    &&& context.span_trace is Some <==> deepest_span_trace(links) is None
}

/// The backtrace that a report shows: the context's own, or else the one of
/// the innermost link that carries any.
pub open spec fn resolved_backtrace(
    context: JaneContextView,
    links: Seq<LinkView>,
) -> Option<BacktraceRecordView> {
    if context.backtrace is Some {
        context.backtrace
    } else {
        deepest_backtrace(links)
    }
}

/// The span trace that a report shows: the context's own, or else the one of
/// the innermost link that carries any.
pub open spec fn resolved_span_trace(
    context: JaneContextView,
    links: Seq<LinkView>,
) -> Option<SpanTraceRecordView> {
    if context.span_trace is Some {
        context.span_trace
    } else {
        deepest_span_trace(links)
    }
}

/// Both traces of a report can be found, in the context or in the chain.
pub open spec fn resolves(context: JaneContextView, links: Seq<LinkView>) -> bool {
    resolved_backtrace(context, links) is Some && resolved_span_trace(context, links) is Some
}

/// The debug rendering of a report. The alternate form is the head's own
/// structural representation. The plain form numbers the chain from the
/// innermost cause, lists the hints, and ends with the trace sections.
pub open spec fn debug_text(
    context: JaneContextView,
    links: Seq<LinkView>,
    alternate: bool,
) -> Seq<char> {
    if alternate {
        links[0].detail
    } else {
        report_text(
            chain_entries(links),
            context.help,
            resolved_span_trace(context, links).unwrap(),
            resolved_backtrace(context, links).unwrap(),
        )
    }
}

/// A fresh context holds a trace of a kind exactly when no link of the chain
/// carries one: an error without a trace gets a new one, and an error
/// that wraps a traced one captures nothing.
pub proof fn lemma_fresh_holds_what_chain_lacks(context: JaneContextView, links: Seq<LinkView>)
    requires
        fresh_for(context, links),
    ensures
        context.backtrace is Some <==> forall|i: int|
            0 <= i < links.len() ==> links[i].backtrace is None,
        context.span_trace is Some <==> forall|i: int|
            0 <= i < links.len() ==> links[i].span_trace is None,
{
    lemma_deepest_is_innermost(backtraces(links));
    lemma_deepest_is_innermost(span_traces(links));
    assert forall|i: int| 0 <= i < links.len() implies backtraces(links)[i]
        == links[i].backtrace && span_traces(links)[i] == links[i].span_trace by {}
    if context.backtrace is Some {
        assert forall|i: int| 0 <= i < links.len() implies links[i].backtrace is None by {
            assert(backtraces(links)[i] is None);
        }
    }
    if context.span_trace is Some {
        assert forall|i: int| 0 <= i < links.len() implies links[i].span_trace is None by {
            assert(span_traces(links)[i] is None);
        }
    }
}

/// Once a context was fresh for a chain, both traces of the report can be
/// found whatever errors wrap the chain later, and the traces shown are
/// those found before the wrapping.
pub proof fn lemma_fresh_resolves_when_wrapped(
    context: JaneContextView,
    links: Seq<LinkView>,
    wrappers: Seq<LinkView>,
)
    requires
        fresh_for(context, links),
    ensures
        resolves(context, wrappers + links),
        resolved_backtrace(context, wrappers + links) == resolved_backtrace(context, links),
        resolved_span_trace(context, wrappers + links) == resolved_span_trace(context, links),
{
    assert(backtraces(wrappers + links) =~= backtraces(wrappers) + backtraces(links));
    assert(span_traces(wrappers + links) =~= span_traces(wrappers) + span_traces(links));
    lemma_deepest_of_wrapped(backtraces(wrappers), backtraces(links));
    lemma_deepest_of_wrapped(span_traces(wrappers), span_traces(links));
}

/// Hints added to a report come out in the order in which they were added,
/// each on a line of its own, below the numbered chain and the earlier hints
/// and above the trace sections.
pub proof fn lemma_hints_render_in_order(
    context: JaneContextView,
    links: Seq<LinkView>,
    first: Seq<char>,
    second: Seq<char>,
)
    ensures
        debug_text(
            JaneContextView { help: context.help.push(first).push(second), ..context },
            links,
            false,
        ) == led_by("\n"@, chain_entries(links)) + led_by("\n"@, context.help) + "\n"@ + first
            + "\n"@ + second + span_trace_section(resolved_span_trace(context, links).unwrap())
            + backtrace_section(resolved_backtrace(context, links).unwrap()),
{
    lemma_led_by_push("\n"@, context.help, first);
    lemma_led_by_push("\n"@, context.help.push(first), second);
    let later = JaneContextView { help: context.help.push(first).push(second), ..context };
    assert(debug_text(later, links, false) =~= led_by("\n"@, chain_entries(links)) + led_by(
        "\n"@,
        context.help,
    ) + "\n"@ + first + "\n"@ + second + span_trace_section(
        resolved_span_trace(context, links).unwrap(),
    ) + backtrace_section(resolved_backtrace(context, links).unwrap()));
}

/// Rendering changes nothing and depends on nothing but the report: two
/// debug renderings of one context and chain in one form are the same text.
pub proof fn lemma_debug_is_repeatable(
    context: &JaneContext,
    chain: &Chain,
    alternate: bool,
    first: String,
    second: String,
)
    requires
        first@ == debug_text(context@, chain@, alternate),
        second@ == debug_text(context@, chain@, alternate),
    ensures
        first@ == second@,
{
}

impl JaneContext {
    /// A context that holds the given traces and no hint.
    pub fn with_traces(
        backtrace: Option<BacktraceRecord>,
        span_trace: Option<SpanTraceRecord>,
    ) -> (context: JaneContext)
        ensures
            context@ == (JaneContextView {
                backtrace: option_view(backtrace),
                span_trace: option_view(span_trace),
                help: Seq::empty(),
            }),
    {
        let context = JaneContext { backtrace, span_trace, help: Vec::new() };
        assert(help_texts(context.help@) =~= Seq::empty());
        context
    }

    /// The context of a report that was just built around `chain`. A trace
    /// is captured now only where no link of the chain carries one already,
    /// so the report can show a trace of either kind. What a trace captured
    /// here holds depends on the process and the thread, and is left open.
    pub fn default(chain: &Chain) -> (context: JaneContext)
        ensures
            fresh_for(context@, chain@),
            resolves(context@, chain@),
            context@.help == Seq::<Seq<char>>::empty(),
    {
        let backtrace = if get_deepest_backtrace(chain).is_none() {
            Some(BacktraceRecord::capture())
        } else {
            None
        };
        let span_trace = if get_deepest_spantrace(chain).is_none() {
            Some(SpanTraceRecord::capture())
        } else {
            None
        };
        JaneContext::with_traces(backtrace, span_trace)
    }

    /// The hints attached so far, oldest first.
    pub fn help(&self) -> (help: &Vec<HelpInfo>)
        ensures
            help_texts(help@) == self@.help,
    {
        &self.help
    }

    /// Read access to a field by kind: the backtrace or the span trace,
    /// where the context holds it.
    pub fn member_ref(&self, kind: MemberKind) -> (found: Option<MemberRef<'_>>)
        ensures
            option_view(found) == member_of(self@, kind),
    {
        match kind {
            MemberKind::Backtrace => match &self.backtrace {
                Some(trace) => Some(MemberRef::Backtrace(trace)),
                None => None,
            },
            MemberKind::SpanTrace => match &self.span_trace {
                Some(trace) => Some(MemberRef::SpanTrace(trace)),
                None => None,
            },
            MemberKind::Help => None,
        }
    }

    /// Write access to a field by kind: the list of hints, so that a caller
    /// can add to it. The traces are not handed out for writing.
    pub fn member_mut(&mut self, kind: MemberKind) -> (found: Option<&mut Vec<HelpInfo>>)
        ensures
            found is Some <==> kind == MemberKind::Help,
            found matches Some(help) ==> help_texts(help@) == old(self)@.help,
            found matches Some(help) ==> final(self)@ == (JaneContextView {
                help: help_texts(final(help)@),
                ..old(self)@
            }),
            found is None ==> final(self)@ == old(self)@,
    {
        match kind {
            MemberKind::Help => Some(&mut self.help),
            _ => None,
        }
    }

    /// The backtrace to show for `chain`: the context's own where it holds
    /// one, else the deepest one of the chain.
    pub fn resolve_backtrace<'a>(&'a self, chain: &'a Chain) -> (found: Option<
        &'a BacktraceRecord,
    >)
        ensures
            option_view(found) == resolved_backtrace(self@, chain@),
    {
        match &self.backtrace {
            Some(trace) => Some(trace),
            None => get_deepest_backtrace(chain),
        }
    }

    /// The span trace to show for `chain`: the context's own where it holds
    /// one, else the deepest one of the chain.
    pub fn resolve_span_trace<'a>(&'a self, chain: &'a Chain) -> (found: Option<
        &'a SpanTraceRecord,
    >)
        ensures
            option_view(found) == resolved_span_trace(self@, chain@),
    {
        match &self.span_trace {
            Some(trace) => Some(trace),
            None => get_deepest_spantrace(chain),
        }
    }

    /// The single-line rendering of the error: the head's message, and in
    /// the alternate form the messages of all its causes behind it.
    pub fn display(&self, chain: &Chain, alternate: bool) -> (line: String)
        ensures
            line@ == display_text(chain@, alternate),
    {
        let mut line = chain.head().message.clone();
        if alternate {
            let len = chain.len();
            let mut at: usize = 1;
            while at < len
                invariant
                    1 <= at <= len,
                    len == chain@.len(),
                    line@ == chain@[0].message + led_by(
                        ": "@,
                        messages(chain@).subrange(1, at as int),
                    ),
                decreases len - at,
            {
                line.append(": ");
                line.append(chain.link(at).message.as_str());
                proof {
                    let upto = messages(chain@).subrange(1, at + 1);
                    assert(upto.drop_last() =~= messages(chain@).subrange(1, at as int));
                    assert(upto.last() == chain@[at as int].message);
                }
                at += 1;
            }
            assert(messages(chain@).subrange(1, at as int) =~= messages(chain@).skip(1));
        }
        line
    }

    /// The debug rendering of the report.
    pub fn debug(&self, chain: &Chain, alternate: bool) -> (report: String)
        requires
            !alternate ==> resolves(self@, chain@),
        ensures
            report@ == debug_text(self@, chain@, alternate),
    {
        if alternate {
            return chain.head().detail.clone();
        }
        let entries = numbered_entries(chain);
        let span_trace = self.resolve_span_trace(chain).unwrap();
        let backtrace = self.resolve_backtrace(chain).unwrap();
        compose_report(&entries, &self.help, span_trace, backtrace)
    }
}

} // verus!
