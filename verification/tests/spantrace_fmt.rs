use jane_eyre::{Chain, JaneContext, Link, MemberKind, MemberRef, SpanTraceStatus};
use std::sync::OnceLock;
use tracing::callsite::{Callsite, Identifier};
use tracing::field::FieldSet;
use tracing::metadata::Kind;
use tracing::subscriber::{with_default, Interest};
use tracing::{Level, Metadata, Span};
use tracing_error::ErrorLayer;
use tracing_subscriber::layer::SubscriberExt;
use tracing_subscriber::registry::Registry;

const EXPECTED: &str = "Error: 
   0: Heres an error

Span Trace:
   0: spantrace_fmt::test span
             at tests/spantrace_fmt.rs:19";

struct Site {
    metadata: OnceLock<Metadata<'static>>,
}

impl Callsite for Site {
    fn set_interest(&self, _interest: Interest) {}

    fn metadata(&self) -> &Metadata<'_> {
        self.metadata.get().expect("the callsite is registered with its metadata")
    }
}

/// A span named `name`, described as if it had been opened in this file.
fn error_span(name: &'static str) -> Span {
    let site: &'static Site = Box::leak(Box::new(Site { metadata: OnceLock::new() }));
    let metadata = site.metadata.get_or_init(|| {
        Metadata::new(
            name,
            "spantrace_fmt",
            Level::ERROR,
            Some("tests/spantrace_fmt.rs"),
            Some(19),
            Some("spantrace_fmt"),
            FieldSet::new(&[], Identifier(site)),
            Kind::SPAN,
        )
    });
    Span::new(metadata, &metadata.fields().value_set_all(&[]))
}

fn single(msg: &str) -> Chain {
    Chain::new(Link::new(msg.to_string(), format!("{:?}", msg)))
}

#[test]
fn capture_supported() {
    let subscriber = Registry::default().with(ErrorLayer::default());

    with_default(subscriber, || {
        let span = error_span("test span");
        let _guard = span.enter();

        let msg = "Heres an error";
        let chain = single(msg);
        let context = JaneContext::default(&chain);

        let dbg = format!("Error: {}", context.debug(&chain, false));
        println!("{}", dbg);

        assert_eq!(EXPECTED, dbg);
    });
}

#[test]
fn capture_outside_of_any_span_is_empty() {
    let subscriber = Registry::default().with(ErrorLayer::default());

    with_default(subscriber, || {
        let chain = single("Heres an error");
        let context = JaneContext::default(&chain);

        match context.member_ref(MemberKind::SpanTrace) {
            Some(MemberRef::SpanTrace(trace)) => {
                assert_eq!(SpanTraceStatus::Empty, trace.status);
                assert_eq!("", trace.text);
            }
            _ => panic!("a fresh context holds a span trace"),
        }
        assert!(!context.debug(&chain, false).contains("Span Trace"));
    });
}

#[test]
fn capture_without_error_layer_is_unsupported() {
    let subscriber = Registry::default();

    with_default(subscriber, || {
        let span = error_span("test span");
        let _guard = span.enter();

        let chain = single("Heres an error");
        let context = JaneContext::default(&chain);

        match context.member_ref(MemberKind::SpanTrace) {
            Some(MemberRef::SpanTrace(trace)) => {
                assert_eq!(SpanTraceStatus::Unsupported, trace.status);
            }
            _ => panic!("a fresh context holds a span trace"),
        }
        let dbg = context.debug(&chain, false);
        assert!(dbg.starts_with(
            "\n   0: Heres an error\n\nWarning: SpanTrace capture is Unsupported.\nEnsure that you've setup an error layer and the versions match"
        ));
    });
}

#[test]
fn nested_spans_are_listed_from_the_current_one() {
    let subscriber = Registry::default().with(ErrorLayer::default());

    with_default(subscriber, || {
        let outer = error_span("outer span");
        let _outer = outer.enter();
        let inner = error_span("inner span");
        let _inner = inner.enter();

        let chain = single("Heres an error");
        let context = JaneContext::default(&chain);
        let dbg = context.debug(&chain, false);

        assert!(dbg.contains(
            "\n\nSpan Trace:\n   0: spantrace_fmt::inner span\n             at tests/spantrace_fmt.rs:19\n   1: spantrace_fmt::outer span\n             at tests/spantrace_fmt.rs:19"
        ));
    });
}
