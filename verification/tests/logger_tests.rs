use vigilant::logger::{format_endpoint, passthrough_line, Lifecycle, ShutdownAction};
use vigilant::types::{find_attribute, set_attribute, LogLevel, MessageType};
use vigilant::{Attribute, Logger, LoggerBuilder};

fn stamp() -> String {
    String::from("2024-05-06T07:08:09.123456789+00:00")
}

#[test]
fn endpoint_scheme_follows_insecure() {
    let insecure = LoggerBuilder::new().insecure(true).endpoint("h:9000").build();
    assert_eq!(insecure.endpoint(), "http://h:9000/api/message");
    let secure = LoggerBuilder::new().insecure(false).endpoint("h:9000").build();
    assert_eq!(secure.endpoint(), "https://h:9000/api/message");
    assert_eq!(format_endpoint("h:9000", true), "http://h:9000/api/message");
    assert_eq!(format_endpoint("", false), "https:///api/message");
}

#[test]
fn builder_defaults() {
    let logger = LoggerBuilder::new().build();
    assert_eq!(logger.name(), "sample-app");
    assert_eq!(logger.endpoint(), "https://ingress.vigilant.run/api/message");
    assert_eq!(logger.token(), "tk_1234567890");
    assert!(!logger.passthrough());
    assert!(!logger.noop());
}

#[test]
fn builder_sets_each_field() {
    let logger = LoggerBuilder::new()
        .name("svc")
        .endpoint("localhost:8000")
        .token("tk_x")
        .passthrough(true)
        .insecure(true)
        .noop(true)
        .build();
    assert_eq!(logger.name(), "svc");
    assert_eq!(logger.endpoint(), "http://localhost:8000/api/message");
    assert_eq!(logger.token(), "tk_x");
    assert!(logger.passthrough());
    assert!(logger.noop());
}

#[test]
fn later_setting_replaces_earlier() {
    let logger = LoggerBuilder::new().name("a").name("b").noop(true).noop(false).build();
    assert_eq!(logger.name(), "b");
    assert!(!logger.noop());
}

#[test]
fn logger_new_takes_all_settings() {
    let logger = Logger::new("svc", "h", "t", true, false, false);
    assert_eq!(logger.name(), "svc");
    assert_eq!(logger.endpoint(), "https://h/api/message");
    assert_eq!(logger.token(), "t");
    assert!(logger.passthrough());
    assert!(!logger.noop());
}

#[test]
fn caller_service_name_overrides_configured_name() {
    let logger = LoggerBuilder::new().name("svc").build();
    let out = logger
        .error_with_attrs("x", vec![Attribute::new("service.name", "override")])
        .expect("an entry");
    assert_eq!(out.entry.attribute("service.name"), Some(String::from("override")));
    assert_eq!(out.entry.attributes.len(), 1);
    assert_eq!(out.entry.level, LogLevel::ERROR);
    assert_eq!(out.entry.body, "x");
}

#[test]
fn entry_carries_configured_service_name() {
    let logger = LoggerBuilder::new().name("svc").build();
    let out = logger.info("hello").expect("an entry");
    assert_eq!(out.entry.attribute("service.name"), Some(String::from("svc")));
    assert_eq!(out.entry.attribute("other"), None);
    assert_eq!(out.entry.attributes.len(), 1);
    assert_eq!(out.entry.level, LogLevel::INFO);
    assert_eq!(out.entry.body, "hello");
    assert!(out.console.is_none());
}

#[test]
fn each_method_tags_its_level() {
    let logger = LoggerBuilder::new().build();
    assert_eq!(logger.debug("m").unwrap().entry.level, LogLevel::DEBUG);
    assert_eq!(logger.info("m").unwrap().entry.level, LogLevel::INFO);
    assert_eq!(logger.warn("m").unwrap().entry.level, LogLevel::WARNING);
    assert_eq!(logger.error("m").unwrap().entry.level, LogLevel::ERROR);
    assert_eq!(logger.debug_with_attrs("m", vec![]).unwrap().entry.level, LogLevel::DEBUG);
    assert_eq!(logger.info_with_attrs("m", vec![]).unwrap().entry.level, LogLevel::INFO);
    assert_eq!(logger.warn_with_attrs("m", vec![]).unwrap().entry.level, LogLevel::WARNING);
    assert_eq!(logger.error_with_attrs("m", vec![]).unwrap().entry.level, LogLevel::ERROR);
}

#[test]
fn attributes_merge_last_write_wins() {
    let logger = LoggerBuilder::new().name("svc").build();
    let attrs = vec![
        Attribute::new("k", "1"),
        Attribute::new("other", "x"),
        Attribute::new("k", "2"),
    ];
    let out = logger.warn_with_attrs("m", attrs).expect("an entry");
    assert_eq!(out.entry.attribute("k"), Some(String::from("2")));
    assert_eq!(out.entry.attribute("other"), Some(String::from("x")));
    assert_eq!(out.entry.attribute("service.name"), Some(String::from("svc")));
    assert_eq!(out.entry.attributes.len(), 3);
}

#[test]
fn timestamp_is_rfc3339() {
    let logger = LoggerBuilder::new().build();
    let out = logger.info("m").expect("an entry");
    assert!(!out.entry.timestamp.is_empty());
    assert!(chrono::DateTime::parse_from_rfc3339(&out.entry.timestamp).is_ok());
}

#[test]
fn emit_keeps_the_given_timestamp() {
    let logger = LoggerBuilder::new().name("svc").build();
    let out = logger
        .emit(LogLevel::DEBUG, "body", None, vec![Attribute::new("a", "b")], stamp())
        .expect("an entry");
    assert_eq!(out.entry.timestamp, stamp());
    assert_eq!(out.entry.body, "body");
    assert_eq!(out.entry.level, LogLevel::DEBUG);
    assert_eq!(out.entry.attribute("a"), Some(String::from("b")));
    assert_eq!(out.entry.attribute("error"), None);
}

#[test]
fn error_detail_becomes_an_attribute() {
    let logger = LoggerBuilder::new().name("svc").passthrough(true).build();
    let attrs = vec![Attribute::new("error", "from caller")];
    let out = logger
        .emit(LogLevel::ERROR, "boom", Some("disk full"), attrs, stamp())
        .expect("an entry");
    assert_eq!(out.entry.attribute("error"), Some(String::from("disk full")));
    assert_eq!(out.entry.attributes.len(), 2);
    assert_eq!(out.console, Some(String::from("[ERROR] boom error=\"disk full\"")));
}

#[test]
fn noop_logger_gives_nothing() {
    let logger = LoggerBuilder::new().noop(true).passthrough(true).build();
    for _ in 0..50 {
        assert!(logger.debug("m").is_none());
        assert!(logger.info("m").is_none());
        assert!(logger.warn("m").is_none());
        assert!(logger.error("m").is_none());
        assert!(logger.error_with_attrs("m", vec![Attribute::new("a", "b")]).is_none());
    }
    assert!(logger.log(LogLevel::INFO, "m", Some("e"), vec![]).is_none());
    assert!(logger.emit(LogLevel::INFO, "m", None, vec![], stamp()).is_none());
}

#[test]
fn passthrough_echoes_level_and_message() {
    let logger = LoggerBuilder::new().passthrough(true).build();
    assert_eq!(logger.info("started").unwrap().console, Some(String::from("[INFO] started")));
    assert_eq!(logger.warn("careful").unwrap().console, Some(String::from("[WARNING] careful")));
    assert_eq!(logger.debug("").unwrap().console, Some(String::from("[DEBUG] ")));
    let quiet = LoggerBuilder::new().passthrough(false).build();
    assert_eq!(quiet.info("started").unwrap().console, None);
}

#[test]
fn passthrough_line_formats() {
    assert_eq!(passthrough_line(LogLevel::ERROR, "x", None), "[ERROR] x");
    assert_eq!(passthrough_line(LogLevel::DEBUG, "x y", Some("e")), "[DEBUG] x y error=\"e\"");
}

#[test]
fn level_and_type_names() {
    assert_eq!(LogLevel::INFO.name(), "INFO");
    assert_eq!(LogLevel::WARNING.name(), "WARNING");
    assert_eq!(LogLevel::ERROR.name(), "ERROR");
    assert_eq!(LogLevel::DEBUG.name(), "DEBUG");
    assert_eq!(MessageType::Logs.tag(), "logs");
}

#[test]
fn attribute_new_copies_both_texts() {
    let attr = Attribute::new("key", "value");
    assert_eq!(attr.key, "key");
    assert_eq!(attr.value, "value");
}

#[test]
fn set_attribute_replaces_or_appends() {
    let mut attrs: Vec<Attribute> = Vec::new();
    set_attribute(&mut attrs, Attribute::new("a", "1"));
    set_attribute(&mut attrs, Attribute::new("b", "2"));
    set_attribute(&mut attrs, Attribute::new("a", "3"));
    assert_eq!(attrs.len(), 2);
    assert_eq!(attrs[0].key, "a");
    assert_eq!(attrs[0].value, "3");
    assert_eq!(attrs[1].key, "b");
    assert_eq!(attrs[1].value, "2");
    assert_eq!(find_attribute(&attrs, "a"), Some(String::from("3")));
    assert_eq!(find_attribute(&attrs, "c"), None);
}

#[test]
fn find_attribute_takes_the_last_of_equal_keys() {
    let attrs = vec![Attribute::new("k", "old"), Attribute::new("k", "new")];
    assert_eq!(find_attribute(&attrs, "k"), Some(String::from("new")));
    assert_eq!(find_attribute(&Vec::new(), "k"), None);
}

#[test]
fn shutdown_twice_joins_once() {
    let mut lifecycle = Lifecycle::new();
    assert!(!lifecycle.stop_signal);
    assert!(lifecycle.worker_attached);
    assert_eq!(lifecycle.shutdown(), ShutdownAction::Join);
    assert!(lifecycle.stop_signal);
    assert!(!lifecycle.worker_attached);
    let after_first = lifecycle;
    assert_eq!(lifecycle.shutdown(), ShutdownAction::Nothing);
    assert_eq!(lifecycle, after_first);
    assert_eq!(lifecycle.shutdown(), ShutdownAction::Nothing);
}

#[test]
fn shutdown_through_any_handle_joins_once() {
    let first = LoggerBuilder::new().build();
    let second = first.clone();
    let mut shared = Lifecycle::new();
    assert_eq!(first.shutdown(&mut shared), ShutdownAction::Join);
    assert!(shared.stop_signal);
    assert!(!shared.worker_attached);
    assert_eq!(second.shutdown(&mut shared), ShutdownAction::Nothing);
    assert_eq!(first.shutdown(&mut shared), ShutdownAction::Nothing);
    assert!(shared.stop_signal);
    assert!(!shared.worker_attached);
}
