use telemetry_layer::attrs::extract;
use telemetry_layer::attrs::MalformedEvent;
use telemetry_layer::attrs::TelemetryAttrs;
use telemetry_layer::event::Field;
use telemetry_layer::event::FieldValue;

fn field_u64(name: &str, value: u64) -> Field {
    Field { name: name.to_string(), value: FieldValue::U64(value) }
}

fn field_str(name: &str, value: &str) -> Field {
    Field { name: name.to_string(), value: FieldValue::Str(value.to_string()) }
}

fn field_other(name: &str) -> Field {
    Field { name: name.to_string(), value: FieldValue::Other }
}

#[test]
fn new_record_is_empty_and_keeps_the_id() {
    let attrs = TelemetryAttrs::new(17);
    assert_eq!(attrs.id, 17);
    assert_eq!(attrs.message_verbosity, None);
    assert_eq!(attrs.json, None);
}

#[test]
fn record_u64_takes_the_verbosity() {
    let mut attrs = TelemetryAttrs::new(1);
    attrs.record_u64("message_verbosity", 3);
    assert_eq!(attrs.message_verbosity, Some(3));
    assert_eq!(attrs.json, None);
    assert_eq!(attrs.id, 1);
}

#[test]
fn record_u64_takes_a_verbosity_wider_than_a_byte() {
    let mut attrs = TelemetryAttrs::new(1);
    attrs.record_u64("message_verbosity", 70_000);
    assert_eq!(attrs.message_verbosity, Some(70_000));
}

#[test]
fn record_u64_ignores_other_names() {
    let mut attrs = TelemetryAttrs::new(1);
    attrs.record_u64("verbosity", 3);
    attrs.record_u64("json", 3);
    attrs.record_u64("", 3);
    assert_eq!(attrs.message_verbosity, None);
    assert_eq!(attrs.json, None);
}

#[test]
fn record_str_takes_the_payload_with_the_id_injected() {
    let mut attrs = TelemetryAttrs::new(9);
    attrs.record_str("json", "{\"msg\":\"hello\"}");
    assert_eq!(attrs.json, Some("{\"id\":9,\"msg\":\"hello\"}".to_string()));
    assert_eq!(attrs.message_verbosity, None);
    assert_eq!(attrs.id, 9);
}

#[test]
fn record_str_ignores_other_names() {
    let mut attrs = TelemetryAttrs::new(9);
    attrs.record_str("message_verbosity", "3");
    attrs.record_str("payload", "{}");
    attrs.record_str("other", "");
    assert_eq!(attrs.json, None);
    assert_eq!(attrs.message_verbosity, None);
}

#[test]
fn record_debug_records_nothing() {
    let mut attrs = TelemetryAttrs::new(9);
    attrs.record_debug("json");
    attrs.record_debug("message_verbosity");
    assert_eq!(attrs.json, None);
    assert_eq!(attrs.message_verbosity, None);
    assert_eq!(attrs.id, 9);
}

#[test]
fn record_dispatches_on_the_type_of_the_value() {
    let mut attrs = TelemetryAttrs::new(2);
    assert_eq!(attrs.record(&field_u64("message_verbosity", 4)), Ok(()));
    assert_eq!(attrs.record(&field_str("json", "{\"a\":1}")), Ok(()));
    assert_eq!(attrs.record(&field_other("json")), Ok(()));
    assert_eq!(attrs.message_verbosity, Some(4));
    assert_eq!(attrs.json, Some("{\"id\":2,\"a\":1}".to_string()));
}

#[test]
fn record_ignores_a_value_of_the_wrong_type() {
    let mut attrs = TelemetryAttrs::new(2);
    assert_eq!(attrs.record(&field_str("message_verbosity", "4")), Ok(()));
    assert_eq!(attrs.record(&field_u64("json", 4)), Ok(()));
    assert_eq!(attrs.record(&field_other("message_verbosity")), Ok(()));
    assert_eq!(attrs.message_verbosity, None);
    assert_eq!(attrs.json, None);
}

#[test]
fn record_reports_a_payload_that_cannot_be_rewritten() {
    let mut attrs = TelemetryAttrs::new(2);
    attrs.record_u64("message_verbosity", 1);
    assert_eq!(attrs.record(&field_str("json", "")), Err(MalformedEvent::MalformedJson));
    assert_eq!(attrs.record(&field_str("json", "\u{e9}")), Err(MalformedEvent::MalformedJson));
    assert_eq!(attrs.json, None);
    assert_eq!(attrs.message_verbosity, Some(1));
}

#[test]
fn record_accepts_an_empty_string_under_another_name() {
    let mut attrs = TelemetryAttrs::new(2);
    assert_eq!(attrs.record(&field_str("note", "")), Ok(()));
    assert_eq!(attrs.json, None);
}

#[test]
fn extract_of_no_fields_is_an_empty_record() {
    let attrs = extract(5, &Vec::new()).unwrap();
    assert_eq!(attrs.id, 5);
    assert_eq!(attrs.message_verbosity, None);
    assert_eq!(attrs.json, None);
}

#[test]
fn extract_decodes_both_fields_in_either_order() {
    let a = extract(5, &vec![field_u64("message_verbosity", 3), field_str("json", "{\"k\":0}")])
        .unwrap();
    let b = extract(5, &vec![field_str("json", "{\"k\":0}"), field_u64("message_verbosity", 3)])
        .unwrap();
    assert_eq!(a.message_verbosity, Some(3));
    assert_eq!(a.json, Some("{\"id\":5,\"k\":0}".to_string()));
    assert_eq!(b.message_verbosity, Some(3));
    assert_eq!(b.json, Some("{\"id\":5,\"k\":0}".to_string()));
}

#[test]
fn extract_lets_the_last_of_repeated_fields_win() {
    let attrs = extract(
        5,
        &vec![
            field_u64("message_verbosity", 1),
            field_str("json", "{\"first\":1}"),
            field_u64("message_verbosity", 2),
            field_str("json", "{\"second\":2}"),
        ],
    )
    .unwrap();
    assert_eq!(attrs.message_verbosity, Some(2));
    assert_eq!(attrs.json, Some("{\"id\":5,\"second\":2}".to_string()));
}

#[test]
fn extract_ignores_fields_it_does_not_know() {
    let attrs = extract(
        5,
        &vec![
            field_other("message"),
            field_u64("count", 12),
            field_str("note", "n"),
            field_u64("message_verbosity", 0),
        ],
    )
    .unwrap();
    assert_eq!(attrs.message_verbosity, Some(0));
    assert_eq!(attrs.json, None);
}

#[test]
fn extract_stops_at_a_payload_that_cannot_be_rewritten() {
    let decoded = extract(
        5,
        &vec![field_str("json", ""), field_str("json", "{}"), field_u64("message_verbosity", 0)],
    );
    assert_eq!(decoded.err(), Some(MalformedEvent::MalformedJson));
}
