//! Captured traces as plain values: what a backtrace or a span trace reports
//! of itself (its status) and the text it renders to.

use vstd::prelude::*;

verus! {

/// Whether a stack backtrace holds frames.
#[derive(Clone, Copy, Debug, PartialEq, Eq, Structural)]
pub enum BacktraceStatus {
    /// The platform cannot capture backtraces.
    Unsupported,
    /// Capturing is switched off for this process.
    Disabled,
    /// Frames were captured and the text shows them.
    Captured,
}

/// Whether a span trace holds spans.
#[derive(Clone, Copy, Debug, PartialEq, Eq, Structural)]
pub enum SpanTraceStatus {
    /// No collector that records span traces is installed.
    Unsupported,
    /// The trace was taken outside of any span.
    Empty,
    /// Spans were captured and the text shows them.
    Captured,
}

/// A stack backtrace, taken at one point in time.
#[derive(Clone, Debug)]
pub struct BacktraceRecord {
    pub status: BacktraceStatus,
    pub text: String,
}

/// A trace of the tracing spans that were active at one point in time.
#[derive(Clone, Debug)]
pub struct SpanTraceRecord {
    pub status: SpanTraceStatus,
    pub text: String,
}

/// The mathematical value of a [`BacktraceRecord`].
pub struct BacktraceRecordView {
    pub status: BacktraceStatus,
    pub text: Seq<char>,
}

/// The mathematical value of a [`SpanTraceRecord`].
pub struct SpanTraceRecordView {
    pub status: SpanTraceStatus,
    pub text: Seq<char>,
}

impl View for BacktraceRecord {
    type V = BacktraceRecordView;

    open spec fn view(&self) -> BacktraceRecordView {
        BacktraceRecordView { status: self.status, text: self.text@ }
    }
}

impl View for SpanTraceRecord {
    type V = SpanTraceRecordView;

    open spec fn view(&self) -> SpanTraceRecordView {
        SpanTraceRecordView { status: self.status, text: self.text@ }
    }
}

/// The value of an optional trace, taken through the option.
pub open spec fn option_view<T: View>(slot: Option<T>) -> Option<T::V> {
    match slot {
        Some(trace) => Some(trace@),
        None => None,
    }
}

/// std's backtrace, held only between its capture and the reading of its
/// status and text.
#[verifier::external_type_specification]
#[verifier::external_body]
pub struct ExStackTrace(std::backtrace::Backtrace);

/// The span trace of `tracing_error`, held only between its capture and the
/// reading of its status and text.
#[verifier::external_type_specification]
#[verifier::external_body]
pub struct ExSpanTrace(tracing_error::SpanTrace);

/// `std::backtrace::Backtrace::capture`: takes a backtrace of the calling
/// thread, or a disabled one where the process has capturing switched off.
/// The outcome depends on the process and its stack, so nothing is claimed.
#[verifier::external_body]
fn take_backtrace() -> std::backtrace::Backtrace {
    std::backtrace::Backtrace::capture()
}

/// `std::backtrace::Backtrace::status`, with std's variants carried over one
/// for one; a variant that std may add later counts as unsupported.
#[verifier::external_body]
fn backtrace_status(raw: &std::backtrace::Backtrace) -> BacktraceStatus {
    match raw.status() {
        std::backtrace::BacktraceStatus::Captured => BacktraceStatus::Captured,
        std::backtrace::BacktraceStatus::Disabled => BacktraceStatus::Disabled,
        _ => BacktraceStatus::Unsupported,
    }
}

/// The `Display` text of a `std::backtrace::Backtrace`.
#[verifier::external_body]
fn backtrace_text(raw: &std::backtrace::Backtrace) -> String {
    format!("{}", raw)
}

/// `tracing_error::SpanTrace::capture`: takes the span that is current on
/// this thread. The outcome depends on the thread's tracing state, so
/// nothing is claimed.
#[verifier::external_body]
fn take_span_trace() -> tracing_error::SpanTrace {
    tracing_error::SpanTrace::capture()
}

/// `tracing_error::SpanTrace::status`, with the crate's three statuses
/// carried over one for one.
#[verifier::external_body]
fn span_trace_status(raw: &tracing_error::SpanTrace) -> SpanTraceStatus {
    match raw.status() {
        tracing_error::SpanTraceStatus::CAPTURED => SpanTraceStatus::Captured,
        tracing_error::SpanTraceStatus::UNSUPPORTED => SpanTraceStatus::Unsupported,
        _ => SpanTraceStatus::Empty,
    }
}

/// The `Display` text of a `tracing_error::SpanTrace`.
#[verifier::external_body]
fn span_trace_text(raw: &tracing_error::SpanTrace) -> String {
    format!("{}", raw)
}

impl BacktraceRecord {
    /// Takes a backtrace now and keeps its status and its text. Both come
    /// from the process as it runs (whether capturing is switched on, what
    /// the stack holds), so no value of either is promised.
    pub(crate) fn capture() -> BacktraceRecord {
        let raw = take_backtrace();
        let status = backtrace_status(&raw);
        let text = backtrace_text(&raw);
        BacktraceRecord { status, text }
    }

    /// A backtrace with the given status and rendered text.
    pub fn new(status: BacktraceStatus, text: String) -> (trace: BacktraceRecord)
        ensures
            trace@ == (BacktraceRecordView { status, text: text@ }),
    {
        BacktraceRecord { status, text }
    }
}

impl SpanTraceRecord {
    /// Takes a span trace now and keeps its status and its text. Both come
    /// from the tracing state of the calling thread (its collector, its
    /// current span), so no value of either is promised.
    pub(crate) fn capture() -> SpanTraceRecord {
        let raw = take_span_trace();
        let status = span_trace_status(&raw);
        let text = span_trace_text(&raw);
        SpanTraceRecord { status, text }
    }

    /// A span trace with the given status and rendered text.
    pub fn new(status: SpanTraceStatus, text: String) -> (trace: SpanTraceRecord)
        ensures
            trace@ == (SpanTraceRecordView { status, text: text@ }),
    {
        SpanTraceRecord { status, text }
    }
}

} // verus!
