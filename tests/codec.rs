use chat_relay::json::{JsonObject, JsonValue};
use chat_relay::protocol::{
    decode, decode_object, encode, encode_object, Envelope, Event, Method, ProtocolError, Status,
};

fn samples() -> Vec<Envelope> {
    vec![
        Envelope::Request { method: Method::LogInUsername, body: "alice".to_string() },
        Envelope::Request { method: Method::LogInPassword, body: "secret".to_string() },
        Envelope::Request { method: Method::SendMessage, body: "say \"hi\"\n\\ ünï".to_string() },
        Envelope::Response { status: Status::Success, message: "OK".to_string() },
        Envelope::Response { status: Status::BadRequest, message: "InvalidUsername".to_string() },
        Envelope::Notification {
            event: Event::SendMessage,
            data: "hi".to_string(),
            sender: Some("alice".to_string()),
            date: "2024-05-06 07:08:09 +0000".to_string(),
        },
        Envelope::Notification {
            event: Event::Connection,
            data: "bob has been connected to the server".to_string(),
            sender: None,
            date: "2024-05-06 07:08:09 +0000".to_string(),
        },
        Envelope::Request { method: Method::SendMessage, body: String::new() },
    ]
}

#[test]
fn decode_of_encode_is_identity() {
    for e in samples() {
        let line = encode(&e);
        assert!(line.ends_with('\n'));
        assert_eq!(line.matches('\n').count(), 1);
        assert_eq!(decode(&line), Ok(e.clone()));
        assert_eq!(decode(line.trim_end()), Ok(e));
    }
}

#[test]
fn object_round_trip_without_text() {
    for e in samples() {
        assert_eq!(decode_object(&encode_object(&e)), Ok(e));
    }
}

#[test]
fn encode_writes_exact_json() {
    let e = Envelope::Response { status: Status::Success, message: "OK".to_string() };
    assert_eq!(encode(&e), "{\"message\":\"OK\",\"status_code\":200,\"type\":\"response\"}\n");
    let r = Envelope::Request { method: Method::LogInUsername, body: "alice".to_string() };
    assert_eq!(encode(&r), "{\"body\":\"alice\",\"method\":\"LogInUsername\",\"type\":\"request_c2s\"}\n");
}

#[test]
fn decode_reads_wire_examples() {
    assert_eq!(
        decode(r#"{"type":"request_c2s","method":"LogInUsername","body":"alice"}"#),
        Ok(Envelope::Request { method: Method::LogInUsername, body: "alice".to_string() })
    );
    assert_eq!(
        decode(r#"{"type":"response","status_code":400,"message":"BadRequest"}"#),
        Ok(Envelope::Response { status: Status::BadRequest, message: "BadRequest".to_string() })
    );
    assert_eq!(
        decode(r#"{"type":"request_s2c","method":"Connection","body":{"data":"x","date":"d"}}"#),
        Ok(Envelope::Notification {
            event: Event::Connection,
            data: "x".to_string(),
            sender: None,
            date: "d".to_string(),
        })
    );
}

#[test]
fn decode_errors() {
    assert_eq!(decode("not json"), Err(ProtocolError::NotJson));
    assert_eq!(decode("[1,2]"), Err(ProtocolError::NotJson));
    assert_eq!(decode(""), Err(ProtocolError::NotJson));
    assert_eq!(decode(r#"{"method":"LogInUsername","body":"alice"}"#), Err(ProtocolError::BadField));
    assert_eq!(decode(r#"{"type":"other","body":"alice"}"#), Err(ProtocolError::UnknownType));
    assert_eq!(decode(r#"{"type":"request_c2s","method":"Dance","body":"x"}"#), Err(ProtocolError::UnknownMethod));
    assert_eq!(decode(r#"{"type":"request_c2s","method":"SendMessage"}"#), Err(ProtocolError::BadField));
    assert_eq!(decode(r#"{"type":"request_c2s","method":"SendMessage","body":5}"#), Err(ProtocolError::BadField));
    assert_eq!(decode(r#"{"type":"response","status_code":500,"message":"x"}"#), Err(ProtocolError::UnknownStatus));
    assert_eq!(decode(r#"{"type":"response","status_code":"200","message":"x"}"#), Err(ProtocolError::BadField));
    assert_eq!(
        decode(r#"{"type":"request_s2c","method":"SendMessage","body":{"data":"x","sender":1,"date":"d"}}"#),
        Err(ProtocolError::BadField)
    );
    assert_eq!(
        decode(r#"{"type":"request_s2c","method":"SendMessage","body":{"data":"x"}}"#),
        Err(ProtocolError::BadField)
    );
}

#[test]
fn decode_object_reads_first_member() {
    let o = JsonObject {
        entries: vec![
            ("type".to_string(), JsonValue::Str("response".to_string())),
            ("status_code".to_string(), JsonValue::Int(200)),
            ("message".to_string(), JsonValue::Str("first".to_string())),
            ("message".to_string(), JsonValue::Str("second".to_string())),
        ],
    };
    assert_eq!(
        decode_object(&o),
        Ok(Envelope::Response { status: Status::Success, message: "first".to_string() })
    );
}

#[test]
fn wire_names() {
    assert_eq!(Method::LogInUsername.name(), "LogInUsername");
    assert_eq!(Method::LogInPassword.name(), "LogInPassword");
    assert_eq!(Method::SendMessage.name(), "SendMessage");
    assert_eq!(Event::Connection.name(), "Connection");
    assert_eq!(Event::SendMessage.name(), "SendMessage");
    assert_eq!(Status::Success.code(), 200);
    assert_eq!(Status::BadRequest.code(), 400);
}
