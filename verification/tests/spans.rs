use trace_collector::field::{Attributes, Field, FieldValue};
use trace_collector::span::{Span, SpanData};
use trace_collector::tags::Tags;

fn attrs(name: &str, target: &str, fields: Vec<Field>) -> Attributes {
    Attributes { name: name.to_string(), target: target.to_string(), fields }
}

fn text(name: &str, value: &str) -> Field {
    Field { name: name.to_string(), value: FieldValue::Str(value.to_string()) }
}

fn debug(name: &str, rendered: &str) -> Field {
    Field { name: name.to_string(), value: FieldValue::Debug(rendered.to_string()) }
}

fn tag(tags: &Tags, key: &str) -> Option<String> {
    tags.get(&key.to_string()).cloned()
}

#[test]
fn new_span_has_one_handle_and_no_times() {
    let span = Span::new(Some(3), 77, &attrs("request", "svc::http", vec![]));
    assert_eq!(span.parent, Some(3));
    assert_eq!(span.parent(), Some(3));
    assert_eq!(span.trace_id, 77);
    assert_eq!(span.trace_id(), 77);
    assert_eq!(span.handlers(), 1);
    assert!(!span.is_closed());
    assert_eq!(span.name(), "request");
    let out = Span::into_at(9, span, 5_000);
    assert_eq!(out.id, 9);
    assert_eq!(out.parent_id, Some(3));
    assert_eq!(out.name, "request");
    assert_eq!(out.resource, "svc::http");
    assert_eq!(out.kind, "web");
    assert_eq!(out.start, 5_000);
    assert_eq!(out.duration, 0);
    assert_eq!(out.tags.entries().len(), 0);
}

#[test]
fn span_data_starts_empty() {
    let data = SpanData::new("a", "b");
    let shown = format!("{:?}", data);
    assert!(shown.contains("name: \"a\""));
    assert!(shown.contains("resource: \"b\""));
    assert!(shown.contains("start: None"));
    assert!(shown.contains("duration: None"));
}

#[test]
fn creation_fields_become_tags() {
    let span = Span::new(
        None,
        1,
        &attrs("s", "t", vec![text("user", "ann"), debug("count", "3"), text("user", "bob")]),
    );
    let out = Span::into_at(1, span, 0);
    assert_eq!(tag(&out.tags, "user"), Some("bob".to_string()));
    assert_eq!(tag(&out.tags, "count"), Some("3".to_string()));
    assert_eq!(out.tags.entries().len(), 2);
}

#[test]
fn grpc_status_is_stored_as_grpc_dot_status() {
    let mut span = Span::new(None, 1, &attrs("s", "t", vec![]));
    span.record_str("grpc_status", "OK");
    let out = Span::into_at(1, span, 0);
    assert_eq!(tag(&out.tags, "grpc.status"), Some("OK".to_string()));
    assert_eq!(tag(&out.tags, "grpc_status"), None);
}

#[test]
fn grpc_prefix_is_rewritten_for_debug_values_too() {
    let mut span = Span::new(None, 1, &attrs("s", "t", vec![]));
    span.record_debug("grpc_code", "0");
    let out = Span::into_at(1, span, 0);
    assert_eq!(tag(&out.tags, "grpc.code"), Some("0".to_string()));
}

#[test]
fn only_the_leading_grpc_separator_is_rewritten() {
    let mut span = Span::new(None, 1, &attrs("s", "t", vec![]));
    span.record_str("grpc_peer_grpc_name", "x");
    span.record_str("my_grpc_status", "y");
    span.record_str("grpc_", "z");
    span.record_str("grpc", "w");
    let out = Span::into_at(1, span, 0);
    assert_eq!(tag(&out.tags, "grpc.peer_grpc_name"), Some("x".to_string()));
    assert_eq!(tag(&out.tags, "my_grpc_status"), Some("y".to_string()));
    assert_eq!(tag(&out.tags, "grpc."), Some("z".to_string()));
    assert_eq!(tag(&out.tags, "grpc"), Some("w".to_string()));
}

#[test]
fn grpc_rewrite_keeps_characters_beyond_ascii() {
    let mut span = Span::new(None, 1, &attrs("s", "t", vec![]));
    span.record_str("grpc_n\u{e4}me", "v");
    let out = Span::into_at(1, span, 0);
    assert_eq!(tag(&out.tags, "grpc.n\u{e4}me"), Some("v".to_string()));
}

#[test]
fn callsite_is_dropped_for_debug_values_only() {
    let mut span = Span::new(None, 1, &attrs("s", "t", vec![]));
    span.record_debug("callsite", "Identifier(0x1)");
    span.record_debug("other", "1");
    let out = Span::into_at(1, span, 0);
    assert_eq!(tag(&out.tags, "callsite"), None);
    assert_eq!(tag(&out.tags, "other"), Some("1".to_string()));

    let mut span = Span::new(None, 1, &attrs("s", "t", vec![]));
    span.record_str("callsite", "here");
    let out = Span::into_at(1, span, 0);
    assert_eq!(tag(&out.tags, "callsite"), Some("here".to_string()));
}

#[test]
fn record_overwrites_on_key_collision() {
    let mut span = Span::new(None, 1, &attrs("s", "t", vec![text("k", "1")]));
    span.record(&vec![text("k", "2"), debug("callsite", "x"), text("j", "3")]);
    let out = Span::into_at(1, span, 0);
    assert_eq!(tag(&out.tags, "k"), Some("2".to_string()));
    assert_eq!(tag(&out.tags, "j"), Some("3".to_string()));
    assert_eq!(out.tags.entries().len(), 2);
}

#[test]
fn set_tag_keeps_the_name_as_it_is() {
    let mut span = Span::new(None, 1, &attrs("s", "t", vec![]));
    span.set_tag("grpc_status".to_string(), "1".to_string());
    let out = Span::into_at(1, span, 0);
    assert_eq!(tag(&out.tags, "grpc_status"), Some("1".to_string()));
}

#[test]
fn first_entry_sets_the_start_and_later_ones_keep_it() {
    let mut span = Span::new(None, 1, &attrs("s", "t", vec![]));
    span.set_time_at(100);
    span.set_time_at(900);
    let out = Span::into_at(1, span, 1_000);
    assert_eq!(out.start, 100);
    assert_eq!(out.duration, 900);
}

#[test]
fn duration_is_the_time_from_start_to_close() {
    let mut span = Span::new(None, 1, &attrs("s", "t", vec![]));
    span.set_time_at(100);
    span.set_duration_at(350);
    let out = Span::into_at(1, span, 9_999);
    assert_eq!(out.start, 100);
    assert_eq!(out.duration, 250);
}

#[test]
fn duration_of_a_span_never_entered_is_zero() {
    let mut span = Span::new(None, 1, &attrs("s", "t", vec![]));
    span.set_duration_at(350);
    let out = Span::into_at(1, span, 400);
    assert_eq!(out.start, 400);
    assert_eq!(out.duration, 0);
}

#[test]
fn clock_going_backwards_leaves_no_duration() {
    let mut span = Span::new(None, 1, &attrs("s", "t", vec![]));
    span.set_time_at(500);
    span.set_duration_at(400);
    let later = Span::new(None, 1, &attrs("s", "t", vec![]));
    let out = Span::into_at(1, span, 450);
    assert_eq!(out.start, 500);
    assert_eq!(out.duration, 0);
    let mut later = later;
    later.set_time_at(500);
    later.set_duration_at(400);
    let out = Span::into_at(1, later, 800);
    assert_eq!(out.duration, 300);
}

#[test]
fn set_time_reads_the_clock() {
    let mut span = Span::new(None, 1, &attrs("s", "t", vec![]));
    span.set_time();
    span.set_duration();
    let out = Span::into(1, span);
    // 2020-01-01 in nanoseconds since the epoch
    assert!(out.start > 1_577_836_800_000_000_000);
    assert!(out.duration < 60_000_000_000);
}

#[test]
fn into_reads_the_clock_for_a_span_never_entered() {
    let span = Span::new(None, 1, &attrs("s", "t", vec![]));
    let out = Span::into(4, span);
    assert_eq!(out.id, 4);
    assert!(out.start > 1_577_836_800_000_000_000);
    assert_eq!(out.duration, 0);
}

#[test]
fn handle_count_goes_up_and_down_and_stops_at_zero() {
    let mut span = Span::new(None, 1, &attrs("s", "t", vec![]));
    span.increment_handlers();
    assert_eq!(span.handlers(), 2);
    span.decrement_handlers();
    assert_eq!(span.handlers(), 1);
    assert!(!span.is_closed());
    span.decrement_handlers();
    assert_eq!(span.handlers(), 0);
    assert!(span.is_closed());
    span.decrement_handlers();
    assert_eq!(span.handlers(), 0);
    assert!(span.is_closed());
}

#[test]
fn tags_insert_get_and_overwrite() {
    let mut tags = Tags::new();
    assert_eq!(tags.get(&"a".to_string()), None);
    tags.insert("a".to_string(), "1".to_string());
    tags.insert("b".to_string(), "2".to_string());
    tags.insert("a".to_string(), "3".to_string());
    assert_eq!(tags.get(&"a".to_string()), Some(&"3".to_string()));
    assert_eq!(tags.get(&"b".to_string()), Some(&"2".to_string()));
    assert_eq!(tags.get(&"c".to_string()), None);
    assert_eq!(
        tags.entries(),
        &vec![("a".to_string(), "3".to_string()), ("b".to_string(), "2".to_string())]
    );
}
