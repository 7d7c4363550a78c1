use lucky_numbers::json_deserializer::deserialize;
use lucky_numbers::json_deserializer::from_event;

#[test]
fn decodes_a_well_formed_payload() {
    let payload = deserialize(r#"{"name":"Alice","count":5}"#).unwrap();
    assert_eq!(payload.name, "Alice");
    assert_eq!(payload.count, 5);
}

#[test]
fn round_trips_an_encoded_payload() {
    let name = "Zoe \"the\" lucky one \\ friends";
    let count: u32 = 17;
    let encoded = format!(
        "{{\"name\":{},\"count\":{}}}",
        serde_json::to_string(name).unwrap(),
        count
    );
    let decoded = deserialize(&encoded).unwrap();
    assert_eq!(decoded.name, name);
    assert_eq!(decoded.count, count);
}

#[test]
fn rejects_malformed_json() {
    assert!(deserialize("{not json}").is_err());
    let err = deserialize("{not json}").unwrap_err();
    assert!(!err.describe().is_empty());
}

#[test]
fn rejects_schema_mismatches() {
    assert!(deserialize(r#"{"name":5,"count":5}"#).is_err());
    assert!(deserialize(r#"{"name":"Alice","count":"five"}"#).is_err());
    assert!(deserialize(r#"{"name":"Alice"}"#).is_err());
    assert!(deserialize(r#"{"count":5}"#).is_err());
    assert!(deserialize(r#"{"name":"Alice","count":-1}"#).is_err());
    assert!(deserialize(r#"{"name":"Alice","count":4294967296}"#).is_err());
    assert!(deserialize(r#"{"name":"Alice","count":2.5}"#).is_err());
    assert!(deserialize(r#"[1,2,3]"#).is_err());
    assert!(deserialize("").is_err());
}

#[test]
fn builds_an_envelope_from_a_raw_event() {
    let event = r#"{"body":"{\"name\":\"Bob\",\"count\":3}","other":"ignored"}"#;
    let request = from_event(event).unwrap();
    assert_eq!(request.body().name, "Bob");
    assert_eq!(request.body().count, 3);
}

#[test]
fn rejects_an_event_without_a_body_string() {
    assert!(from_event(r#"{"other":"x"}"#).is_err());
    assert!(from_event(r#"{"body":{"name":"Bob","count":3}}"#).is_err());
    assert!(from_event("not an event").is_err());
}

#[test]
fn rejects_an_event_whose_body_is_not_json() {
    let err = from_event(r#"{"body":"{not json}"}"#).unwrap_err();
    assert!(!err.describe().is_empty());
}
