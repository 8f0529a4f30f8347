//! Finding the trace that a chain already carries: the one of the innermost
//! link that has any.

use vstd::prelude::*;
use crate::chain::{Chain, LinkView};
use crate::trace::{
    option_view, BacktraceRecord, BacktraceRecordView, SpanTraceRecord, SpanTraceRecordView,
};

verus! {

/// The last slot that is filled, if any is: with the slots of a chain in
/// head-first order, the trace of the innermost link that carries one.
pub open spec fn deepest<T>(slots: Seq<Option<T>>) -> Option<T>
    decreases slots.len(),
{
    if slots.len() == 0 {
        None
    } else if slots.last() is Some {
        slots.last()
    } else {
        deepest(slots.drop_last())
    }
}

/// The backtrace slot of each link, in chain order.
pub open spec fn backtraces(links: Seq<LinkView>) -> Seq<Option<BacktraceRecordView>> {
    links.map_values(|link: LinkView| link.backtrace)
}

/// The span trace slot of each link, in chain order.
pub open spec fn span_traces(links: Seq<LinkView>) -> Seq<Option<SpanTraceRecordView>> {
    links.map_values(|link: LinkView| link.span_trace)
}

/// The backtrace of the innermost link that carries one.
pub open spec fn deepest_backtrace(links: Seq<LinkView>) -> Option<BacktraceRecordView> {
    deepest(backtraces(links))
}

/// The span trace of the innermost link that carries one.
pub open spec fn deepest_span_trace(links: Seq<LinkView>) -> Option<SpanTraceRecordView> {
    deepest(span_traces(links))
}

/// Nothing is found exactly when every slot is empty; what is found sits in
/// a slot behind which every slot is empty.
pub proof fn lemma_deepest_is_innermost<T>(slots: Seq<Option<T>>)
    ensures
        deepest(slots) is None <==> forall|i: int| 0 <= i < slots.len() ==> slots[i] is None,
        deepest(slots) is Some ==> exists|i: int|
            0 <= i < slots.len() && slots[i] == deepest(slots) && forall|j: int|
                i < j < slots.len() ==> slots[j] is None,
    decreases slots.len(),
{
    if slots.len() == 0 {
    } else if slots.last() is Some {
        let at = slots.len() - 1;
        assert(0 <= at < slots.len() && slots[at] == deepest(slots));
    } else {
        let rest = slots.drop_last();
        lemma_deepest_is_innermost(rest);
        assert forall|i: int| 0 <= i < rest.len() implies rest[i] == slots[i] by {}
        if deepest(rest) is Some {
            let at = choose|i: int|
                0 <= i < rest.len() && rest[i] == deepest(rest) && forall|j: int|
                    i < j < rest.len() ==> rest[j] is None;
            assert forall|j: int| at < j < slots.len() implies slots[j] is None by {
                if j < rest.len() {
                    assert(rest[j] is None);
                }
            }
            assert(0 <= at < slots.len() && slots[at] == deepest(slots));
        } else {
            assert forall|i: int| 0 <= i < slots.len() implies slots[i] is None by {
                if i < rest.len() {
                    assert(rest[i] is None);
                }
            }
        }
    }
}

/// Slots put in front of a chain's slots change what is found only where
/// the chain itself carries nothing.
pub proof fn lemma_deepest_of_wrapped<T>(outer: Seq<Option<T>>, inner: Seq<Option<T>>)
    ensures
        deepest(outer + inner) == if deepest(inner) is Some {
            deepest(inner)
        } else {
            deepest(outer)
        },
    decreases inner.len(),
{
    if inner.len() == 0 {
        assert(outer + inner =~= outer);
    } else {
        assert((outer + inner).last() == inner.last());
        assert((outer + inner).drop_last() =~= outer + inner.drop_last());
        lemma_deepest_of_wrapped(outer, inner.drop_last());
    }
}

/// The backtrace of the innermost link that carries one, or `None` where no
/// link of the chain does.
pub fn get_deepest_backtrace(chain: &Chain) -> (found: Option<&BacktraceRecord>)
    ensures
        option_view(found) == deepest_backtrace(chain@),
{
    let ghost slots = backtraces(chain@);
    let mut at: usize = chain.len();
    assert(slots.take(at as int) =~= slots);
    while at > 0
        invariant
            at <= chain@.len(),
            slots == backtraces(chain@),
            deepest(slots) == deepest(slots.take(at as int)),
        decreases at,
    {
        at -= 1;
        proof {
            let upto = slots.take(at + 1);
            assert(upto.last() == chain@[at as int].backtrace);
            assert(upto.drop_last() =~= slots.take(at as int));
        }
        match &chain.link(at).backtrace {
            Some(trace) => {
                return Some(trace);
            },
            None => {},
        }
    }
    None
}

/// The span trace of the innermost link that carries one, or `None` where no
/// link of the chain does.
pub fn get_deepest_spantrace(chain: &Chain) -> (found: Option<&SpanTraceRecord>)
    ensures
        option_view(found) == deepest_span_trace(chain@),
{
    let ghost slots = span_traces(chain@);
    let mut at: usize = chain.len();
    assert(slots.take(at as int) =~= slots);
    while at > 0
        invariant
            at <= chain@.len(),
            slots == span_traces(chain@),
            deepest(slots) == deepest(slots.take(at as int)),
        decreases at,
    {
        at -= 1;
        proof {
            let upto = slots.take(at + 1);
            assert(upto.last() == chain@[at as int].span_trace);
            assert(upto.drop_last() =~= slots.take(at as int));
        }
        match &chain.link(at).span_trace {
            Some(trace) => {
                return Some(trace);
            },
            None => {},
        }
    }
    None
}

} // verus!
