use chat_relay::json::{JsonObject, JsonValue};
use chat_relay::message::Message;
use chat_relay::protocol::{encode_object, Envelope, Event, ProtocolError, Status};

#[test]
fn new_keeps_fields() {
    let m = Message::new("hi".to_string(), Some("bob".to_string()), "d".to_string());
    assert_eq!(m.data, "hi");
    assert_eq!(m.sender, Some("bob".to_string()));
    assert_eq!(m.date, "d");
}

#[test]
fn from_json_value_reads_notification() {
    let e = Envelope::Notification {
        event: Event::SendMessage,
        data: "hello".to_string(),
        sender: Some("bob".to_string()),
        date: "2024-05-06 07:08:09 +0000".to_string(),
    };
    let m = Message::from_json_value(&encode_object(&e)).unwrap();
    assert_eq!(m.data, "hello");
    assert_eq!(m.sender, Some("bob".to_string()));
    assert_eq!(m.date.len(), "06-05-2024 07:08".len());
    assert_eq!(&m.date[6..10], "2024");
}

#[test]
fn from_json_value_rejects_other_objects() {
    let r = Envelope::Response { status: Status::Success, message: "OK".to_string() };
    assert_eq!(Message::from_json_value(&encode_object(&r)), Err(ProtocolError::UnknownType));
    let bad_date = Envelope::Notification {
        event: Event::Connection,
        data: "x".to_string(),
        sender: None,
        date: "not a date".to_string(),
    };
    assert_eq!(Message::from_json_value(&encode_object(&bad_date)), Err(ProtocolError::BadField));
    let empty = JsonObject { entries: vec![("type".to_string(), JsonValue::Other)] };
    assert_eq!(Message::from_json_value(&empty), Err(ProtocolError::BadField));
}
