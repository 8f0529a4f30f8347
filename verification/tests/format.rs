use jane_eyre::{
    BacktraceRecord, BacktraceStatus, Chain, HelpInfo, JaneContext, Link, MemberKind,
    SpanTraceRecord, SpanTraceStatus,
};

fn link(msg: &str) -> Link {
    Link::new(msg.to_string(), format!("{:?}", msg))
}

fn chain_of(messages: &[&str]) -> Chain {
    let mut chain = Chain::new(link(messages[0]));
    for msg in &messages[1..] {
        chain = chain.with_cause(link(msg));
    }
    chain
}

/// A context whose own traces hold nothing to show.
fn quiet() -> JaneContext {
    JaneContext::with_traces(
        Some(BacktraceRecord::new(BacktraceStatus::Disabled, String::new())),
        Some(SpanTraceRecord::new(SpanTraceStatus::Empty, String::new())),
    )
}

#[test]
fn no_capture() {
    let msg = "Heres an error";
    let chain = chain_of(&[msg]);
    let context = JaneContext::default(&chain);

    let dbg = context.debug(&chain, false);

    let expected = "\n   0: Heres an error";
    assert_eq!(expected, dbg);
}

#[test]
fn display_shows_the_head_message() {
    let chain = chain_of(&["Heres an error"]);
    assert_eq!("Heres an error", quiet().display(&chain, false));
    assert_eq!("Heres an error", quiet().display(&chain, true));
}

#[test]
fn display_ignores_causes_unless_alternate() {
    let chain = chain_of(&["Z", "Y", "X"]);
    assert_eq!("Z", quiet().display(&chain, false));
}

#[test]
fn alternate_display_joins_the_chain_with_colons() {
    let chain = chain_of(&["Z", "Y", "X"]);
    assert_eq!("Z: Y: X", quiet().display(&chain, true));
    let pair = chain_of(&["outer", "inner"]);
    assert_eq!("outer: inner", quiet().display(&pair, true));
}

#[test]
fn display_leaves_out_traces_and_hints() {
    let chain = chain_of(&["Z"]);
    let mut context = JaneContext::with_traces(
        Some(BacktraceRecord::new(BacktraceStatus::Captured, "frames".to_string())),
        Some(SpanTraceRecord::new(SpanTraceStatus::Captured, "spans".to_string())),
    );
    context.member_mut(MemberKind::Help).unwrap().push(HelpInfo::new("h1".to_string()));
    assert_eq!("Z", context.display(&chain, false));
    assert_eq!("Z", context.display(&chain, true));
}

#[test]
fn debug_numbers_the_chain_from_the_innermost_cause() {
    let chain = chain_of(&["Z", "Y", "X"]);
    assert_eq!("\n   0: X\n   1: Y\n   2: Z", quiet().debug(&chain, false));
}

#[test]
fn debug_numbers_do_not_depend_on_how_the_chain_was_built() {
    let step_by_step = Chain::new(link("Z")).with_cause(link("Y")).with_cause(link("X"));
    let at_once = chain_of(&["Z", "Y", "X"]);
    let expected = "\n   0: X\n   1: Y\n   2: Z";
    assert_eq!(expected, quiet().debug(&step_by_step, false));
    assert_eq!(expected, quiet().debug(&at_once, false));
}

#[test]
fn debug_pads_the_number_to_four_columns() {
    let messages: Vec<String> = (0..12).map(|n: usize| format!("e{}", n)).collect();
    let refs: Vec<&str> = messages.iter().map(|m| m.as_str()).collect();
    let chain = chain_of(&refs);
    let dbg = quiet().debug(&chain, false);
    assert!(dbg.starts_with("\n   0: e11\n   1: e10\n   2: e9\n"));
    assert!(dbg.ends_with("\n   9: e2\n  10: e1\n  11: e0"));
}

#[test]
fn debug_indents_the_later_lines_of_a_message() {
    let chain = chain_of(&["verify\nthis"]);
    assert_eq!("\n   0: verify\n       this", quiet().debug(&chain, false));
}

#[test]
fn alternate_debug_is_the_heads_own_representation() {
    let chain = Chain::new(Link::new("Z".to_string(), "Outer {\n    code: 7,\n}".to_string()))
        .with_cause(link("Y"));
    let mut context = quiet();
    context.member_mut(MemberKind::Help).unwrap().push(HelpInfo::new("h1".to_string()));
    assert_eq!("Outer {\n    code: 7,\n}", context.debug(&chain, true));
}

#[test]
fn alternate_debug_needs_no_trace() {
    let chain = chain_of(&["Z"]);
    let context = JaneContext::with_traces(None, None);
    assert_eq!("\"Z\"", context.debug(&chain, true));
}

#[test]
fn hints_follow_the_chain_in_the_order_added() {
    let chain = chain_of(&["Z", "X"]);
    let mut context = JaneContext::with_traces(
        Some(BacktraceRecord::new(BacktraceStatus::Captured, "frames".to_string())),
        Some(SpanTraceRecord::new(SpanTraceStatus::Captured, "spans".to_string())),
    );
    let help = context.member_mut(MemberKind::Help).unwrap();
    help.push(HelpInfo::new("h1".to_string()));
    help.push(HelpInfo::new("h2".to_string()));
    assert_eq!(
        "\n   0: X\n   1: Z\nh1\nh2\n\nSpan Trace:\nspans\n\nStack Backtrace:\nframes",
        context.debug(&chain, false)
    );
}

#[test]
fn debug_without_hints_adds_no_line() {
    let chain = chain_of(&["Z"]);
    let context = quiet();
    assert!(context.help().is_empty());
    assert_eq!("\n   0: Z", context.debug(&chain, false));
}

#[test]
fn captured_backtrace_gets_a_section() {
    let chain = chain_of(&["Heres an error"]);
    let context = JaneContext::with_traces(
        Some(BacktraceRecord::new(BacktraceStatus::Captured, "   0: main".to_string())),
        Some(SpanTraceRecord::new(SpanTraceStatus::Empty, String::new())),
    );
    let dbg = context.debug(&chain, false);
    assert!(dbg.starts_with("\n   0: Heres an error"));
    assert_eq!("\n   0: Heres an error\n\nStack Backtrace:\n   0: main", dbg);
}

#[test]
fn disabled_or_unsupported_backtrace_adds_nothing() {
    let chain = chain_of(&["Z"]);
    for status in [BacktraceStatus::Disabled, BacktraceStatus::Unsupported] {
        let context = JaneContext::with_traces(
            Some(BacktraceRecord::new(status, "not shown".to_string())),
            Some(SpanTraceRecord::new(SpanTraceStatus::Empty, String::new())),
        );
        assert_eq!("\n   0: Z", context.debug(&chain, false));
    }
}

#[test]
fn captured_span_trace_gets_a_section() {
    let chain = chain_of(&["Z"]);
    let context = JaneContext::with_traces(
        Some(BacktraceRecord::new(BacktraceStatus::Disabled, String::new())),
        Some(SpanTraceRecord::new(SpanTraceStatus::Captured, "   0: test span".to_string())),
    );
    assert_eq!("\n   0: Z\n\nSpan Trace:\n   0: test span", context.debug(&chain, false));
}

#[test]
fn unsupported_span_trace_gets_a_warning() {
    let chain = chain_of(&["Z"]);
    let context = JaneContext::with_traces(
        Some(BacktraceRecord::new(BacktraceStatus::Disabled, String::new())),
        Some(SpanTraceRecord::new(SpanTraceStatus::Unsupported, "not shown".to_string())),
    );
    assert_eq!(
        "\n   0: Z\n\nWarning: SpanTrace capture is Unsupported.\nEnsure that you've setup an error layer and the versions match",
        context.debug(&chain, false)
    );
}

#[test]
fn empty_span_trace_adds_nothing() {
    let chain = chain_of(&["Z"]);
    let context = JaneContext::with_traces(
        Some(BacktraceRecord::new(BacktraceStatus::Disabled, String::new())),
        Some(SpanTraceRecord::new(SpanTraceStatus::Empty, "not shown".to_string())),
    );
    assert_eq!("\n   0: Z", context.debug(&chain, false));
}

#[test]
fn span_trace_section_comes_before_the_backtrace_section() {
    let chain = chain_of(&["Z"]);
    let context = JaneContext::with_traces(
        Some(BacktraceRecord::new(BacktraceStatus::Captured, "frames".to_string())),
        Some(SpanTraceRecord::new(SpanTraceStatus::Unsupported, String::new())),
    );
    assert_eq!(
        "\n   0: Z\n\nWarning: SpanTrace capture is Unsupported.\nEnsure that you've setup an error layer and the versions match\n\nStack Backtrace:\nframes",
        context.debug(&chain, false)
    );
}

#[test]
fn debug_twice_gives_the_same_text() {
    let chain = chain_of(&["Z", "Y", "X"]);
    let mut context = JaneContext::default(&chain);
    context.member_mut(MemberKind::Help).unwrap().push(HelpInfo::new("h1".to_string()));
    let first = context.debug(&chain, false);
    let second = context.debug(&chain, false);
    assert_eq!(first, second);
    assert_eq!(context.debug(&chain, true), context.debug(&chain, true));
    assert_eq!(1, context.help().len());
}
