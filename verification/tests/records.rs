use tracing_honeycomb::field_map::FieldMap;
use tracing_honeycomb::record::{event_to_values, span_reference, span_to_values, Event, Level, Span};
use tracing_honeycomb::reserved::mk_field_name;
use tracing_honeycomb::value::Value;
use tracing_honeycomb::visitor::HoneycombVisitor;

fn fresh() -> HoneycombVisitor {
    HoneycombVisitor::default()
}

fn sample_event(values: HoneycombVisitor, parent_id: Option<u64>) -> Event {
    Event {
        values,
        trace_id: String::from("trace-1"),
        parent_id,
        service_name: String::from("billing"),
        level: Level::Info,
        name: String::from("checkout"),
        target: String::from("billing::checkout"),
        initialized_at_ms: 0,
    }
}

fn sample_span(
    values: HoneycombVisitor,
    parent_id: Option<u64>,
    initialized_at_ms: u64,
    completed_at_ms: u64,
) -> Span {
    Span {
        values,
        id: 9,
        trace_id: String::from("trace-1"),
        parent_id,
        service_name: String::from("billing"),
        level: Level::Error,
        name: String::from("checkout"),
        target: String::from("billing::checkout"),
        initialized_at_ms,
        completed_at_ms,
    }
}

fn get_owned(map: &FieldMap, key: &str) -> Option<Value> {
    map.get(key).cloned()
}

#[test]
fn nonreserved_name_stored_unchanged() {
    let mut v = fresh();
    v.record_str(String::from("user_field"), "x");
    assert_eq!(get_owned(&v.0, "user_field"), Some(Value::Str(String::from("x"))));
    assert_eq!(v.0.len(), 1);
}

#[test]
fn every_reserved_name_is_prefixed() {
    let reserved = [
        "trace.span_id",
        "trace.trace_id",
        "trace.parent_id",
        "service_name",
        "level",
        "Timestamp",
        "name",
        "target",
        "duration_ms",
    ];
    for word in reserved {
        let mut v = fresh();
        v.record_bool(String::from(word), true);
        assert_eq!(get_owned(&v.0, word), None);
        let prefixed = format!("tracing.{}", word);
        assert_eq!(get_owned(&v.0, prefixed.as_str()), Some(Value::Bool(true)));
    }
}

#[test]
fn reserved_i64_on_fresh_collector() {
    // A fresh collector given (name = "level", value = 42) holds exactly
    // {"tracing.level": 42}.
    let mut v = fresh();
    v.record_i64(String::from("level"), 42);
    assert_eq!(v.0.len(), 1);
    assert_eq!(get_owned(&v.0, "tracing.level"), Some(Value::I64(42)));
    assert_eq!(get_owned(&v.0, "level"), None);
}

#[test]
fn mk_field_name_applies_collision_avoidance() {
    assert_eq!(mk_field_name(String::from("level")), String::from("tracing.level"));
    assert_eq!(mk_field_name(String::from("levels")), String::from("levels"));
    assert_eq!(mk_field_name(String::from("duration_ms")), String::from("tracing.duration_ms"));
}

#[test]
fn last_write_wins_per_name() {
    let mut v = fresh();
    v.record_i64(String::from("retries"), 1);
    v.record_i64(String::from("retries"), 2);
    v.record_u64(String::from("retries"), 3);
    assert_eq!(v.0.len(), 1);
    assert_eq!(get_owned(&v.0, "retries"), Some(Value::U64(3)));
}

#[test]
fn typed_record_calls_store_tagged_values() {
    let mut v = fresh();
    v.record_i64(String::from("a"), -5);
    v.record_u64(String::from("b"), 7);
    v.record_bool(String::from("c"), false);
    v.record_str(String::from("d"), "text");
    v.record_debug(String::from("e"), String::from("Custom { x: 1 }"));
    assert_eq!(get_owned(&v.0, "a"), Some(Value::I64(-5)));
    assert_eq!(get_owned(&v.0, "b"), Some(Value::U64(7)));
    assert_eq!(get_owned(&v.0, "c"), Some(Value::Bool(false)));
    assert_eq!(get_owned(&v.0, "d"), Some(Value::Str(String::from("text"))));
    assert_eq!(get_owned(&v.0, "e"), Some(Value::Str(String::from("Custom { x: 1 }"))));
    assert_eq!(v.0.len(), 5);
}

#[test]
fn event_record_holds_exactly_the_event_keys() {
    let mut v = fresh();
    v.record_str(String::from("user_field"), "x");
    let record = event_to_values(sample_event(v, Some(7)));
    assert_eq!(record.len(), 8);
    assert_eq!(
        get_owned(&record, "trace.trace_id"),
        Some(Value::Str(String::from("trace-1")))
    );
    assert_eq!(
        get_owned(&record, "trace.parent_id"),
        Some(Value::Str(String::from("span-7")))
    );
    assert_eq!(get_owned(&record, "service_name"), Some(Value::Str(String::from("billing"))));
    assert_eq!(get_owned(&record, "level"), Some(Value::Str(String::from("INFO"))));
    assert_eq!(
        get_owned(&record, "Timestamp"),
        Some(Value::Str(String::from("1970-01-01T00:00:00+00:00")))
    );
    assert_eq!(get_owned(&record, "name"), Some(Value::Str(String::from("checkout"))));
    assert_eq!(get_owned(&record, "target"), Some(Value::Str(String::from("billing::checkout"))));
    assert_eq!(get_owned(&record, "user_field"), Some(Value::Str(String::from("x"))));
    assert_eq!(get_owned(&record, "trace.span_id"), None);
    assert_eq!(get_owned(&record, "duration_ms"), None);
}

#[test]
fn span_record_adds_span_id_and_duration() {
    let v = fresh();
    let record = span_to_values(sample_span(v, Some(7), 1_000, 1_250));
    assert_eq!(record.len(), 9);
    assert_eq!(get_owned(&record, "trace.span_id"), Some(Value::Str(String::from("span-9"))));
    assert_eq!(get_owned(&record, "duration_ms"), Some(Value::U64(250)));
    assert_eq!(get_owned(&record, "level"), Some(Value::Str(String::from("ERROR"))));
    assert_eq!(
        get_owned(&record, "Timestamp"),
        Some(Value::Str(String::from("1970-01-01T00:00:01+00:00")))
    );
}

#[test]
fn span_completed_at_initialization_has_no_duration() {
    // Equal timestamps: the record is still produced, without `duration_ms`;
    // the diagnostic goes to the error stream.
    let v = fresh();
    let record = span_to_values(sample_span(v, None, 5_000, 5_000));
    assert_eq!(get_owned(&record, "duration_ms"), None);
    assert_eq!(record.len(), 8);
    assert_eq!(get_owned(&record, "trace.span_id"), Some(Value::Str(String::from("span-9"))));
}

#[test]
fn span_completed_before_initialization_has_no_duration() {
    let v = fresh();
    let record = span_to_values(sample_span(v, None, 5_000, 4_999));
    assert_eq!(get_owned(&record, "duration_ms"), None);
}

#[test]
fn parent_id_renders_as_span_reference_or_null() {
    let with_parent = span_to_values(sample_span(fresh(), Some(7), 0, 1));
    assert_eq!(
        get_owned(&with_parent, "trace.parent_id"),
        Some(Value::Str(String::from("span-7")))
    );
    let without_parent = span_to_values(sample_span(fresh(), None, 0, 1));
    assert_eq!(get_owned(&without_parent, "trace.parent_id"), Some(Value::Null));

    let event_with_parent = event_to_values(sample_event(fresh(), Some(7)));
    assert_eq!(
        get_owned(&event_with_parent, "trace.parent_id"),
        Some(Value::Str(String::from("span-7")))
    );
    let event_without_parent = event_to_values(sample_event(fresh(), None));
    assert_eq!(get_owned(&event_without_parent, "trace.parent_id"), Some(Value::Null));
}

#[test]
fn user_reserved_field_and_backend_key_coexist() {
    let mut v = fresh();
    v.record_i64(String::from("level"), 42);
    let record = event_to_values(sample_event(v, None));
    assert_eq!(get_owned(&record, "tracing.level"), Some(Value::I64(42)));
    assert_eq!(get_owned(&record, "level"), Some(Value::Str(String::from("INFO"))));
}

#[test]
fn timestamp_renders_milliseconds() {
    let v = fresh();
    let mut span = sample_span(v, None, 1, 2);
    span.initialized_at_ms = 1;
    let record = span_to_values(span);
    assert_eq!(
        get_owned(&record, "Timestamp"),
        Some(Value::Str(String::from("1970-01-01T00:00:00.001+00:00")))
    );
}

#[test]
fn span_reference_renders_decimal_identifiers() {
    assert_eq!(span_reference(0), String::from("span-0"));
    assert_eq!(span_reference(7), String::from("span-7"));
    assert_eq!(span_reference(1_234_567_890), String::from("span-1234567890"));
    assert_eq!(span_reference(u64::MAX), String::from("span-18446744073709551615"));
}

#[test]
fn field_map_get_and_len_observe_insertions() {
    let mut map = FieldMap::new();
    assert_eq!(map.len(), 0);
    assert_eq!(map.get("missing"), None);
    map.insert(String::from("k"), Value::Bool(true));
    map.insert(String::from("k2"), Value::Null);
    map.insert(String::from("k"), Value::I64(1));
    assert_eq!(map.len(), 2);
    assert_eq!(get_owned(&map, "k"), Some(Value::I64(1)));
    assert_eq!(get_owned(&map, "k2"), Some(Value::Null));
}
