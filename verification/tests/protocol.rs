use wrangler::protocol::{push_decimal, ControlMessage, Method, ENABLE_ID, FIRST_PROBE_ID};

fn decimal(n: u64) -> String {
    let mut out = String::new();
    push_decimal(&mut out, n);
    out
}

#[test]
fn decimal_of_single_digits() {
    assert_eq!(decimal(0), "0");
    assert_eq!(decimal(7), "7");
    assert_eq!(decimal(9), "9");
}

#[test]
fn decimal_of_longer_numbers() {
    assert_eq!(decimal(10), "10");
    assert_eq!(decimal(105), "105");
    assert_eq!(decimal(1234567890), "1234567890");
    assert_eq!(decimal(u64::MAX), "18446744073709551615");
}

#[test]
fn decimal_is_appended_to_what_is_there() {
    let mut out = String::from("id=");
    push_decimal(&mut out, 42);
    assert_eq!(out, "id=42");
}

#[test]
fn method_names_on_the_wire() {
    assert_eq!(Method::Enable.name(), "Runtime.enable");
    assert_eq!(Method::GetIsolateId.name(), "Runtime.getIsolateId");
}

#[test]
fn enable_message_has_identifier_one() {
    let message = ControlMessage::enable();
    assert_eq!(ENABLE_ID, 1);
    assert_eq!(message, ControlMessage { id: 1, method: Method::Enable });
    assert_eq!(message.to_text(), "{\"id\": 1, \"method\": \"Runtime.enable\"}");
}

#[test]
fn probe_message_text() {
    assert_eq!(FIRST_PROBE_ID, 2);
    let message = ControlMessage::probe(2);
    assert_eq!(message, ControlMessage { id: 2, method: Method::GetIsolateId });
    assert_eq!(message.to_text(), "{\"id\": 2, \"method\": \"Runtime.getIsolateId\"}");
    assert_eq!(
        ControlMessage::probe(4096).to_text(),
        "{\"id\": 4096, \"method\": \"Runtime.getIsolateId\"}"
    );
}

#[test]
fn control_messages_are_json_objects() {
    for id in [1u64, 2, 10, 99, 100, u64::MAX] {
        let text = ControlMessage::probe(id).to_text();
        let value: serde_json::Value = serde_json::from_str(&text).unwrap();
        let object = value.as_object().unwrap();
        assert_eq!(object.len(), 2);
        assert_eq!(object["id"].as_u64(), Some(id));
        assert_eq!(object["method"].as_str(), Some("Runtime.getIsolateId"));
    }
    let value: serde_json::Value =
        serde_json::from_str(&ControlMessage::enable().to_text()).unwrap();
    assert_eq!(value["id"].as_u64(), Some(1));
    assert_eq!(value["method"].as_str(), Some("Runtime.enable"));
}
