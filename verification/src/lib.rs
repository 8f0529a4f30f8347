//! An error-reporting context: the side information captured when an error is
//! first raised (a stack backtrace, a span trace, remediation hints) and the
//! two renderings of an error chain that carry it.
//!
//! A chain of causes is held as plain values ([`Chain`], [`Link`]); the
//! context ([`JaneContext`]) decides at construction whether a fresh trace has
//! to be captured or whether a deeper link of the chain already carries one,
//! and renders the chain for display and for debugging.

pub mod chain;
pub mod context;
pub mod help;
pub mod locate;
pub mod render;
pub mod trace;

pub use chain::{Chain, Link};
pub use context::{JaneContext, MemberKind, MemberRef};
pub use help::HelpInfo;
pub use locate::{get_deepest_backtrace, get_deepest_spantrace};
pub use trace::{BacktraceRecord, BacktraceStatus, SpanTraceRecord, SpanTraceStatus};
