use chat_relay::json::frame;
use chat_relay::message::Message;

#[test]
fn lobby_message_serialises_to_the_expected_object() {
    let m = Message::new("lobby", "alice", "hi");
    assert_eq!(
        m.to_json(),
        "{\"room\":\"lobby\",\"username\":\"alice\",\"message\":\"hi\"}"
    );
}

#[test]
fn field_values_are_quoted() {
    // Handing the fields on unchanged would leave the quotes out.
    let json = Message::new("a", "b", "c").to_json();
    assert_eq!(json, "{\"room\":\"a\",\"username\":\"b\",\"message\":\"c\"}");
    assert_ne!(json, "{\"room\":a,\"username\":b,\"message\":c}");
}

#[test]
fn reserved_characters_are_escaped() {
    let m = Message::new("lobby", "al\"ice", "line one\nback\\slash\ttab");
    assert_eq!(
        m.to_json(),
        "{\"room\":\"lobby\",\"username\":\"al\\\"ice\",\"message\":\"line one\\nback\\\\slash\\ttab\"}"
    );
}

#[test]
fn control_characters_are_written_as_code_points() {
    let m = Message::new("lobby", "alice", "\u{1}");
    assert_eq!(
        m.to_json(),
        "{\"room\":\"lobby\",\"username\":\"alice\",\"message\":\"\\u0001\"}"
    );
}

#[test]
fn other_characters_are_kept_as_they_are() {
    let m = Message::new("caf\u{e9}", "alice", "\u{1f600}");
    assert_eq!(
        m.to_json(),
        "{\"room\":\"caf\u{e9}\",\"username\":\"alice\",\"message\":\"\u{1f600}\"}"
    );
}

#[test]
fn empty_message_serialises_to_empty_strings() {
    let m = Message::new("", "", "");
    assert_eq!(m.to_json(), "{\"room\":\"\",\"username\":\"\",\"message\":\"\"}");
}

#[test]
fn frame_puts_the_fields_in_declaration_order() {
    assert_eq!(
        frame("1", "2", "3"),
        "{\"room\":1,\"username\":2,\"message\":3}"
    );
    assert_eq!(frame("", "", ""), "{\"room\":,\"username\":,\"message\":}");
}

#[test]
fn payload_parses_back_to_the_same_fields() {
    let m = Message::new("lo\"bby", "al\\ice", "hi\nthere \u{1f600} \u{0}");
    let value: serde_json::Value = serde_json::from_str(&m.to_json()).unwrap();
    let object = value.as_object().unwrap();
    assert_eq!(object.len(), 3);
    assert_eq!(object["room"].as_str(), Some(m.room.as_str()));
    assert_eq!(object["username"].as_str(), Some(m.username.as_str()));
    assert_eq!(object["message"].as_str(), Some(m.message.as_str()));
}
