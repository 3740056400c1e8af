use trace_collector::event::Event;
use trace_collector::field::{Field, FieldValue};
use trace_collector::level::Level;
use trace_collector::text::decimal_string;

fn text(name: &str, value: &str) -> Field {
    Field { name: name.to_string(), value: FieldValue::Str(value.to_string()) }
}

fn debug(name: &str, rendered: &str) -> Field {
    Field { name: name.to_string(), value: FieldValue::Debug(rendered.to_string()) }
}

#[test]
fn decimal_string_matches_the_numeral() {
    assert_eq!(decimal_string(0), "0");
    assert_eq!(decimal_string(7), "7");
    assert_eq!(decimal_string(10), "10");
    assert_eq!(decimal_string(1234567890), "1234567890");
    assert_eq!(decimal_string(u64::MAX), "18446744073709551615");
    assert_eq!(decimal_string(9_000_000_000_000_000_100), 9_000_000_000_000_000_100u64.to_string());
}

#[test]
fn new_event_carries_ids_as_decimal_text() {
    let ev = Event::new("svc::db", Some("query"), Some(12), Some(3405691582));
    let record = ev.log_at(&Level::Info, 1_700_000_000_000);
    assert_eq!(record.event, "svc::db");
    assert_eq!(record.function, "query");
    assert_eq!(record.span_id, "12");
    assert_eq!(record.trace_id, "3405691582");
    assert_eq!(record.time, 1_700_000_000_000);
    assert_eq!(record.status, "info");
    assert_eq!(record.message, "{}");
    assert_eq!(ev.data().entries().len(), 0);
}

#[test]
fn new_event_outside_any_span_has_empty_texts() {
    let ev = Event::new("svc", None, None, None);
    let record = ev.log_at(&Level::Trace, 0);
    assert_eq!(record.event, "svc");
    assert_eq!(record.function, "");
    assert_eq!(record.span_id, "");
    assert_eq!(record.trace_id, "");
    assert_eq!(record.status, "trace");
}

#[test]
fn event_and_function_fields_override_the_names() {
    let mut ev = Event::new("svc", Some("span"), Some(1), Some(2));
    ev.record_str("event", "login");
    ev.record_str("function", "authenticate");
    ev.record_str("user", "ann");
    let record = ev.log_at(&Level::Warn, 5);
    assert_eq!(record.event, "login");
    assert_eq!(record.function, "authenticate");
    assert_eq!(record.status, "warn");
    assert_eq!(record.message, "{\"user\":\"ann\"}");
    assert_eq!(ev.data().get(&"event".to_string()), None);
    assert_eq!(ev.data().get(&"function".to_string()), None);
}

#[test]
fn debug_fields_named_event_stay_data() {
    let mut ev = Event::new("svc", None, None, None);
    ev.record_debug("event", "7");
    ev.record_debug("callsite", "x");
    let record = ev.log_at(&Level::Debug, 5);
    assert_eq!(record.event, "svc");
    assert_eq!(record.status, "debug");
    assert_eq!(ev.data().get(&"event".to_string()), Some(&"7".to_string()));
    assert_eq!(ev.data().get(&"callsite".to_string()), Some(&"x".to_string()));
}

#[test]
fn event_fields_keep_their_grpc_names() {
    let mut ev = Event::new("svc", None, None, None);
    ev.record(&vec![text("grpc_status", "1")]);
    assert_eq!(ev.data().get(&"grpc_status".to_string()), Some(&"1".to_string()));
    assert_eq!(ev.data().get(&"grpc.status".to_string()), None);
}

#[test]
fn message_is_a_json_object_ordered_by_key() {
    let mut ev = Event::new("svc", None, None, None);
    ev.record(&vec![
        text("zeta", "last"),
        debug("alpha", "1"),
        text("quote", "say \"hi\"\n"),
        text("zeta", "again"),
    ]);
    let record = ev.log_at(&Level::Error, 5);
    assert_eq!(record.status, "error");
    assert_eq!(
        record.message,
        "{\"alpha\":\"1\",\"quote\":\"say \\\"hi\\\"\\n\",\"zeta\":\"again\"}"
    );
    let parsed: std::collections::BTreeMap<String, String> =
        serde_json::from_str(&record.message).unwrap();
    assert_eq!(parsed.len(), 3);
    assert_eq!(parsed["quote"], "say \"hi\"\n");
}

#[test]
fn log_stamps_the_record_with_the_clock_in_milliseconds() {
    let ev = Event::new("svc", None, None, None);
    let record = ev.log(&Level::Info);
    // between 2020-01-01 and 2200-01-01, in milliseconds since the epoch
    assert!(record.time > 1_577_836_800_000);
    assert!(record.time < 7_258_118_400_000);
    assert_eq!(record.status, "info");
}
