use vigilant::adapters::adapter_tracing::{
    event_attributes, event_message, span_attributes, EventRecord, SpanContext, SpanRecord,
};
use vigilant::adapters::numerals::{decimal_string, hex_string};
use vigilant::adapters::severity::{LevelFilter, Severity};
use vigilant::logger::{Lifecycle, ShutdownAction};
use vigilant::types::LogLevel;
use vigilant::{
    Attribute, EnvLoggerAdapter, EnvLoggerAdapterBuilder, LoggerBuilder, TracingAdapter,
    TracingAdapterBuilder,
};

fn some(text: &str) -> Option<String> {
    Some(String::from(text))
}

fn plain_event(severity: Severity) -> EventRecord {
    EventRecord {
        severity,
        fields: vec![Attribute::new("message", "hello"), Attribute::new("user", "bob")],
        target: String::from("app"),
        file: None,
        line: None,
        module: None,
        current_span: None,
        parent: None,
    }
}

fn keys(attrs: &Vec<Attribute>) -> Vec<String> {
    attrs.iter().map(|a| a.key.clone()).collect()
}

fn values(attrs: &Vec<Attribute>) -> Vec<String> {
    attrs.iter().map(|a| a.value.clone()).collect()
}

#[test]
fn severity_maps_to_level() {
    assert_eq!(Severity::Error.level(), LogLevel::ERROR);
    assert_eq!(Severity::Warn.level(), LogLevel::WARNING);
    assert_eq!(Severity::Info.level(), LogLevel::INFO);
    assert_eq!(Severity::Debug.level(), LogLevel::DEBUG);
    assert_eq!(Severity::Trace.level(), LogLevel::DEBUG);
}

#[test]
fn filter_admits_at_least_as_severe() {
    assert!(LevelFilter::Info.enabled(Severity::Error));
    assert!(LevelFilter::Info.enabled(Severity::Warn));
    assert!(LevelFilter::Info.enabled(Severity::Info));
    assert!(!LevelFilter::Info.enabled(Severity::Debug));
    assert!(!LevelFilter::Info.enabled(Severity::Trace));
    assert!(!LevelFilter::Off.enabled(Severity::Error));
    assert!(LevelFilter::Trace.enabled(Severity::Trace));
    assert!(LevelFilter::Error.enabled(Severity::Error));
    assert!(!LevelFilter::Error.enabled(Severity::Warn));
    assert_eq!(Severity::Trace.verbosity(), 5);
    assert_eq!(LevelFilter::Debug.bound(), 4);
}

#[test]
fn env_adapter_forwards_enabled_records() {
    let adapter = EnvLoggerAdapterBuilder::new().name("svc").passthrough(true).build();
    let out = adapter.log(true, Severity::Trace, "details").expect("an entry");
    assert_eq!(out.entry.level, LogLevel::DEBUG);
    assert_eq!(out.entry.body, "details");
    assert_eq!(out.entry.attribute("service.name"), some("svc"));
    assert_eq!(out.entry.attributes.len(), 1);
    assert_eq!(out.console, some("[DEBUG] details"));
    assert_eq!(adapter.log(true, Severity::Error, "e").unwrap().entry.level, LogLevel::ERROR);
    assert_eq!(adapter.log(true, Severity::Warn, "w").unwrap().entry.level, LogLevel::WARNING);
    assert_eq!(adapter.log(true, Severity::Info, "i").unwrap().entry.level, LogLevel::INFO);
    assert_eq!(adapter.log(true, Severity::Debug, "d").unwrap().entry.level, LogLevel::DEBUG);
}

#[test]
fn env_adapter_drops_disabled_records() {
    let adapter = EnvLoggerAdapter::new(LoggerBuilder::new().build());
    assert!(adapter.log(false, Severity::Error, "e").is_none());
    let noop = EnvLoggerAdapter::builder().noop(true).build();
    assert!(noop.log(true, Severity::Error, "e").is_none());
}

#[test]
fn env_adapter_builder_settings_reach_the_logger() {
    let adapter = EnvLoggerAdapterBuilder::new()
        .name("svc")
        .endpoint("h:1")
        .token("t")
        .passthrough(true)
        .insecure(true)
        .noop(true)
        .build();
    assert_eq!(adapter.logger().name(), "svc");
    assert_eq!(adapter.logger().endpoint(), "http://h:1/api/message");
    assert_eq!(adapter.logger().token(), "t");
    assert!(adapter.logger().passthrough());
    assert!(adapter.logger().noop());
    let defaults = EnvLoggerAdapter::builder().build();
    assert_eq!(defaults.logger().name(), "sample-app");
    assert_eq!(defaults.logger().endpoint(), "https://ingress.vigilant.run/api/message");
    assert_eq!(defaults.logger().token(), "tk_1234567890");
}

#[test]
fn tracing_builder_settings_reach_the_adapter() {
    let adapter = TracingAdapterBuilder::new()
        .name("svc")
        .endpoint("h:1")
        .token("t")
        .passthrough(true)
        .insecure(true)
        .noop(false)
        .level_filter(LevelFilter::Trace)
        .build();
    assert_eq!(adapter.logger().name(), "svc");
    assert_eq!(adapter.logger().endpoint(), "http://h:1/api/message");
    assert_eq!(adapter.logger().token(), "t");
    assert!(adapter.logger().passthrough());
    assert!(adapter.on_event(&plain_event(Severity::Trace)).is_some());
}

#[test]
fn tracing_default_filter_is_info() {
    let adapter = TracingAdapter::builder().build();
    assert_eq!(adapter.logger().name(), "sample-app");
    assert!(adapter.on_event(&plain_event(Severity::Info)).is_some());
    assert!(adapter.on_event(&plain_event(Severity::Debug)).is_none());
}

#[test]
fn tracing_event_without_span() {
    let adapter = TracingAdapter::new(LoggerBuilder::new().name("svc").build(), LevelFilter::Info);
    let out = adapter.on_event(&plain_event(Severity::Warn)).expect("an entry");
    assert_eq!(out.entry.level, LogLevel::WARNING);
    assert_eq!(out.entry.body, "hello");
    assert_eq!(out.entry.attribute("message"), some("hello"));
    assert_eq!(out.entry.attribute("user"), some("bob"));
    assert_eq!(out.entry.attribute("target"), some("app"));
    assert_eq!(out.entry.attribute("service.name"), some("svc"));
    assert_eq!(out.entry.attribute("file"), None);
    assert_eq!(out.entry.attribute("trace.span.id"), None);
    assert_eq!(out.entry.attributes.len(), 4);
}

#[test]
fn tracing_event_attributes_in_order() {
    let event = EventRecord {
        severity: Severity::Error,
        fields: vec![Attribute::new("user", "bob")],
        target: String::from("app::db"),
        file: some("src/db.rs"),
        line: Some(42),
        module: some("app::db"),
        current_span: Some(SpanContext { id: 255, name: some("request") }),
        parent: None,
    };
    let attrs = event_attributes(&event);
    assert_eq!(
        keys(&attrs),
        vec![
            "user",
            "target",
            "file",
            "line",
            "module\x5fpath",
            "trace.span.id",
            "trace.span.name"
        ]
    );
    assert_eq!(
        values(&attrs),
        vec!["bob", "app::db", "src/db.rs", "42", "app::db", "ff", "request"]
    );
    assert_eq!(event_message(&attrs), "<no message>");
}

#[test]
fn tracing_event_with_explicit_parent() {
    let event = EventRecord {
        severity: Severity::Info,
        fields: vec![Attribute::new("message", "first"), Attribute::new("message", "second")],
        target: String::from("t"),
        file: None,
        line: Some(0),
        module: None,
        current_span: Some(SpanContext { id: 1, name: None }),
        parent: Some(4096),
    };
    let attrs = event_attributes(&event);
    assert_eq!(keys(&attrs), vec!["message", "message", "target", "line", "trace.span.parent.id"]);
    assert_eq!(values(&attrs), vec!["first", "second", "t", "0", "1000"]);
    assert_eq!(event_message(&attrs), "first");
    let adapter = TracingAdapter::new(LoggerBuilder::new().build(), LevelFilter::Info);
    let out = adapter.on_event(&event).expect("an entry");
    assert_eq!(out.entry.body, "first");
    assert_eq!(out.entry.attribute("message"), some("second"));
    assert_eq!(out.entry.attribute("trace.span.parent.id"), some("1000"));
}

#[test]
fn tracing_parent_without_current_span_is_not_recorded() {
    let mut event = plain_event(Severity::Info);
    event.parent = Some(7);
    let attrs = event_attributes(&event);
    assert_eq!(keys(&attrs), vec!["message", "user", "target"]);
}

#[test]
fn numbers_are_written_in_hex_and_decimal() {
    let mut event = plain_event(Severity::Info);
    event.fields = Vec::new();
    event.line = Some(u32::MAX);
    event.current_span = Some(SpanContext { id: u64::MAX, name: None });
    let attrs = event_attributes(&event);
    assert_eq!(values(&attrs), vec!["app", "4294967295", "ffffffffffffffff"]);
    event.line = Some(10);
    event.current_span = Some(SpanContext { id: 0, name: None });
    assert_eq!(values(&event_attributes(&event)), vec!["app", "10", "0"]);
    event.current_span = Some(SpanContext { id: 0xabcdef0123456789, name: None });
    assert_eq!(values(&event_attributes(&event)), vec!["app", "10", "abcdef0123456789"]);
}

#[test]
fn tracing_event_without_message() {
    let adapter = TracingAdapter::new(LoggerBuilder::new().build(), LevelFilter::Info);
    let mut event = plain_event(Severity::Info);
    event.fields = vec![Attribute::new("user", "bob")];
    let out = adapter.on_event(&event).expect("an entry");
    assert_eq!(out.entry.body, "<no message>");
}

#[test]
fn tracing_noop_gives_nothing() {
    let adapter = TracingAdapter::builder().noop(true).level_filter(LevelFilter::Trace).build();
    assert!(adapter.on_event(&plain_event(Severity::Error)).is_none());
    let span = SpanRecord { id: 1, name: String::from("s"), parent: None };
    assert!(adapter.on_new_span(&span).is_none());
}

#[test]
fn new_span_is_logged_at_info() {
    let adapter = TracingAdapter::builder().name("svc").level_filter(LevelFilter::Off).build();
    let span = SpanRecord { id: 26, name: String::from("request"), parent: Some(16) };
    let out = adapter.on_new_span(&span).expect("an entry");
    assert_eq!(out.entry.level, LogLevel::INFO);
    assert_eq!(out.entry.body, "Entered span: request");
    assert_eq!(out.entry.attribute("trace.span.parent.id"), some("10"));
    assert_eq!(out.entry.attribute("trace.span.id"), some("1a"));
    assert_eq!(out.entry.attribute("trace.span.name"), some("request"));
    assert_eq!(out.entry.attribute("service.name"), some("svc"));
    let attrs = span_attributes(&span);
    assert_eq!(keys(&attrs), vec!["trace.span.parent.id", "trace.span.id", "trace.span.name"]);
    let root = SpanRecord { id: 26, name: String::from("request"), parent: None };
    assert_eq!(keys(&span_attributes(&root)), vec!["trace.span.id", "trace.span.name"]);
}

#[test]
fn hex_string_matches_lower_hex() {
    assert_eq!(hex_string(0), "0");
    assert_eq!(hex_string(9), "9");
    assert_eq!(hex_string(10), "a");
    assert_eq!(hex_string(15), "f");
    assert_eq!(hex_string(16), "10");
    assert_eq!(hex_string(255), "ff");
    assert_eq!(hex_string(0xdead_beef), "deadbeef");
    assert_eq!(hex_string(u64::MAX), "ffffffffffffffff");
    let mut n: u64 = 1;
    for _ in 0..40 {
        assert_eq!(hex_string(n), format!("{:x}", n));
        n = n.wrapping_mul(6364136223846793005).wrapping_add(1442695040888963407);
    }
}

#[test]
fn decimal_string_matches_decimal() {
    assert_eq!(decimal_string(0), "0");
    assert_eq!(decimal_string(9), "9");
    assert_eq!(decimal_string(10), "10");
    assert_eq!(decimal_string(1234567890), "1234567890");
    assert_eq!(decimal_string(u32::MAX), "4294967295");
    let mut n: u32 = 1;
    for _ in 0..40 {
        assert_eq!(decimal_string(n), format!("{}", n));
        n = n.wrapping_mul(1664525).wrapping_add(1013904223);
    }
}

#[test]
fn adapters_forward_shutdown() {
    let mut shared = Lifecycle::new();
    let tracing = TracingAdapter::builder().build();
    assert_eq!(tracing.shutdown(&mut shared), ShutdownAction::Join);
    assert_eq!(tracing.shutdown(&mut shared), ShutdownAction::Nothing);
    let mut other = Lifecycle::new();
    let env = EnvLoggerAdapter::builder().build();
    assert_eq!(env.shutdown(&mut other), ShutdownAction::Join);
    assert_eq!(env.shutdown(&mut other), ShutdownAction::Nothing);
    assert!(other.stop_signal);
    assert!(!other.worker_attached);
}
