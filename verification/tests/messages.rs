use native_websocket::appsync::AppSyncRealtimeMessage;
use native_websocket::json::JsonValue;
use native_websocket::message::{AppSyncConnectionAckPayload, ProtocolParseError, WebsocketMessage};

fn ack(timeout_ms: u64) -> WebsocketMessage {
    WebsocketMessage::ConnectionAck(AppSyncConnectionAckPayload { connection_timout_ms: timeout_ms })
}

fn send(body: &str) -> WebsocketMessage {
    WebsocketMessage::SendMessage { message: body.to_string() }
}

fn receive(body: &str) -> WebsocketMessage {
    WebsocketMessage::ReceiveMessage { message: body.to_string() }
}

fn object(members: Vec<(&str, JsonValue)>) -> JsonValue {
    JsonValue::Object(members.into_iter().map(|(k, v)| (k.to_string(), v)).collect())
}

fn text(value: &str) -> JsonValue {
    JsonValue::Text(value.to_string())
}

#[test]
fn connection_init_on_the_wire() {
    assert_eq!(WebsocketMessage::ConnectionInit.to_json(), "{\"type\":\"connection_init\"}");
}

#[test]
fn connection_ack_on_the_wire() {
    assert_eq!(
        ack(10000).to_json(),
        "{\"type\":\"connection_ack\",\"payload\":{\"connectionTimeoutMs\":10000}}"
    );
    assert_eq!(
        ack(0).to_json(),
        "{\"type\":\"connection_ack\",\"payload\":{\"connectionTimeoutMs\":0}}"
    );
    assert_eq!(
        ack(u64::MAX).to_json(),
        "{\"type\":\"connection_ack\",\"payload\":{\"connectionTimeoutMs\":18446744073709551615}}"
    );
}

#[test]
fn keep_alive_on_the_wire() {
    assert_eq!(WebsocketMessage::KeepAlive.to_json(), "{\"type\":\"ka\"}");
}

#[test]
fn application_messages_on_the_wire() {
    assert_eq!(send("hello").to_json(), "{\"type\":\"send_message\",\"message\":\"hello\"}");
    assert_eq!(
        receive("hello").to_json(),
        "{\"type\":\"receive_message\",\"message\":\"hello\"}"
    );
    assert_eq!(send("").to_json(), "{\"type\":\"send_message\",\"message\":\"\"}");
}

#[test]
fn bodies_are_escaped() {
    assert_eq!(
        send("say \"hi\"").to_json(),
        "{\"type\":\"send_message\",\"message\":\"say \\\"hi\\\"\"}"
    );
    assert_eq!(
        send("a\\b").to_json(),
        "{\"type\":\"send_message\",\"message\":\"a\\\\b\"}"
    );
    assert_eq!(
        send("\u{08}\t\n\u{0c}\r").to_json(),
        "{\"type\":\"send_message\",\"message\":\"\\b\\t\\n\\f\\r\"}"
    );
    assert_eq!(
        send("\u{00}\u{01}\u{0b}\u{1f}").to_json(),
        "{\"type\":\"send_message\",\"message\":\"\\u0000\\u0001\\u000b\\u001f\"}"
    );
}

#[test]
fn other_characters_stand_for_themselves() {
    assert_eq!(
        send(" /'\u{7f}é✓😀").to_json(),
        "{\"type\":\"send_message\",\"message\":\" /'\u{7f}é✓😀\"}"
    );
}

#[test]
fn ack_round_trip() {
    let wire = ack(10000).to_json();
    match WebsocketMessage::from_json(&wire) {
        Ok(WebsocketMessage::ConnectionAck(payload)) => {
            assert_eq!(payload.connection_timout_ms, 10000)
        }
        other => panic!("unexpected outcome: {:?}", other),
    }
}

#[test]
fn every_kind_round_trips() {
    let messages = vec![
        WebsocketMessage::ConnectionInit,
        ack(0),
        ack(5000),
        ack(u64::MAX),
        WebsocketMessage::KeepAlive,
        send("hello"),
        send("quotes \" and \\ and \n and \u{01}"),
        receive("é✓😀"),
        receive(""),
    ];
    for message in messages {
        let wire = message.to_json();
        assert_eq!(WebsocketMessage::from_json(&wire), Ok(message));
    }
}

#[test]
fn wire_form_is_what_serde_json_reads() {
    let wire = send("line\nbreak \"quoted\" \u{02}").to_json();
    let value: serde_json::Value = serde_json::from_str(&wire).expect("valid JSON");
    assert_eq!(value["type"], "send_message");
    assert_eq!(value["message"], "line\nbreak \"quoted\" \u{02}");
}

#[test]
fn unrecognized_type_is_no_crash() {
    assert_eq!(
        WebsocketMessage::from_json("{\"type\":\"start_ack\",\"id\":\"1\"}"),
        Err(ProtocolParseError::Unrecognized)
    );
    assert_eq!(
        WebsocketMessage::from_json("{\"type\":\"\"}"),
        Err(ProtocolParseError::Unrecognized)
    );
    assert_eq!(
        WebsocketMessage::from_json("{\"type\":\"KA\"}"),
        Err(ProtocolParseError::Unrecognized)
    );
}

#[test]
fn text_that_is_no_json_is_malformed() {
    for frame in ["", "ka", "{", "{\"type\":\"ka\"", "{\"type\":\"ka\"} trailing", "{'type':'ka'}"] {
        assert_eq!(WebsocketMessage::from_json(frame), Err(ProtocolParseError::Malformed));
    }
}

#[test]
fn json_that_is_no_tagged_object_is_malformed() {
    for frame in [
        "null",
        "42",
        "\"ka\"",
        "[\"ka\"]",
        "{}",
        "{\"kind\":\"ka\"}",
        "{\"type\":7}",
        "{\"type\":null}",
        "{\"type\":[\"ka\"]}",
    ] {
        assert_eq!(WebsocketMessage::from_json(frame), Err(ProtocolParseError::Malformed));
    }
}

#[test]
fn ack_without_its_timeout_is_malformed() {
    for frame in [
        "{\"type\":\"connection_ack\"}",
        "{\"type\":\"connection_ack\",\"payload\":{}}",
        "{\"type\":\"connection_ack\",\"payload\":5000}",
        "{\"type\":\"connection_ack\",\"connectionTimeoutMs\":5000}",
        "{\"type\":\"connection_ack\",\"payload\":{\"connectionTimeoutMs\":\"5000\"}}",
        "{\"type\":\"connection_ack\",\"payload\":{\"connectionTimeoutMs\":-1}}",
        "{\"type\":\"connection_ack\",\"payload\":{\"connectionTimeoutMs\":5000.5}}",
        "{\"type\":\"connection_ack\",\"payload\":{\"connectionTimeoutMs\":18446744073709551616}}",
    ] {
        assert_eq!(WebsocketMessage::from_json(frame), Err(ProtocolParseError::Malformed));
    }
}

#[test]
fn data_without_its_body_is_malformed() {
    for frame in [
        "{\"type\":\"send_message\"}",
        "{\"type\":\"receive_message\"}",
        "{\"type\":\"receive_message\",\"message\":7}",
        "{\"type\":\"receive_message\",\"message\":null}",
        "{\"type\":\"send_message\",\"payload\":\"hello\"}",
    ] {
        assert_eq!(WebsocketMessage::from_json(frame), Err(ProtocolParseError::Malformed));
    }
}

#[test]
fn members_that_are_not_needed_are_passed_over() {
    assert_eq!(
        WebsocketMessage::from_json("{\"id\":\"7\",\"type\":\"ka\",\"payload\":null}"),
        Ok(WebsocketMessage::KeepAlive)
    );
    assert_eq!(
        WebsocketMessage::from_json(
            "{\"payload\":{\"connectionTimeoutMs\":300000,\"extra\":true},\"type\":\"connection_ack\"}"
        ),
        Ok(ack(300000))
    );
    assert_eq!(
        WebsocketMessage::from_json(" { \"message\" : \"hi\" , \"type\" : \"receive_message\" } "),
        Ok(receive("hi"))
    );
}

#[test]
fn escapes_are_read_back() {
    assert_eq!(
        WebsocketMessage::from_json("{\"type\":\"receive_message\",\"message\":\"a\\u0041\\n\\\"\"}"),
        Ok(receive("aA\n\""))
    );
}

#[test]
fn documents_are_read_by_their_tag() {
    let document = object(vec![("type", text("ka"))]);
    assert_eq!(WebsocketMessage::from_document(&document), Ok(WebsocketMessage::KeepAlive));

    let document = object(vec![
        ("type", text("connection_ack")),
        ("payload", object(vec![("connectionTimeoutMs", JsonValue::Number(Some(5000)))])),
    ]);
    assert_eq!(WebsocketMessage::from_document(&document), Ok(ack(5000)));

    let document = object(vec![("message", text("hi")), ("type", text("send_message"))]);
    assert_eq!(WebsocketMessage::from_document(&document), Ok(send("hi")));
}

#[test]
fn documents_that_spell_nothing_are_turned_down() {
    assert_eq!(
        WebsocketMessage::from_document(&JsonValue::Null),
        Err(ProtocolParseError::Malformed)
    );
    assert_eq!(
        WebsocketMessage::from_document(&JsonValue::Array(vec![text("ka")])),
        Err(ProtocolParseError::Malformed)
    );
    assert_eq!(
        WebsocketMessage::from_document(&object(vec![("type", JsonValue::Bool(true))])),
        Err(ProtocolParseError::Malformed)
    );
    assert_eq!(
        WebsocketMessage::from_document(&object(vec![("type", text("data"))])),
        Err(ProtocolParseError::Unrecognized)
    );
    let document = object(vec![
        ("type", text("connection_ack")),
        ("payload", object(vec![("connectionTimeoutMs", JsonValue::Number(None))])),
    ]);
    assert_eq!(WebsocketMessage::from_document(&document), Err(ProtocolParseError::Malformed));
}

#[test]
fn the_first_member_of_a_name_counts() {
    let document = JsonValue::Object(vec![
        ("type".to_string(), text("ka")),
        ("type".to_string(), text("connection_init")),
    ]);
    assert_eq!(WebsocketMessage::from_document(&document), Ok(WebsocketMessage::KeepAlive));
}

#[test]
fn member_lookup() {
    let document = object(vec![("a", JsonValue::Number(Some(1))), ("b", text("two"))]);
    assert_eq!(document.get("a").and_then(|v| v.as_count()), Some(1));
    assert_eq!(document.get("b").and_then(|v| v.as_text()).map(|s| s.as_str()), Some("two"));
    assert!(document.get("c").is_none());
    assert!(document.get("").is_none());
    assert!(text("a").get("a").is_none());
    assert_eq!(text("a").as_count(), None);
    assert!(JsonValue::Number(Some(1)).as_text().is_none());
}

#[test]
fn connection_messages_on_the_wire() {
    assert_eq!(
        AppSyncRealtimeMessage::ConnectionInit.to_json(),
        "{\"type\":\"connection_init\"}"
    );
    let ack = AppSyncRealtimeMessage::ConnectionAck {
        payload: AppSyncConnectionAckPayload { connection_timout_ms: 300000 },
    };
    assert_eq!(
        ack.to_json(),
        "{\"type\":\"connection_ack\",\"payload\":{\"connectionTimeoutMs\":300000}}"
    );
    assert_eq!(AppSyncRealtimeMessage::from_json(&ack.to_json()), Ok(ack));
}

#[test]
fn connection_messages_know_two_tags() {
    assert_eq!(
        AppSyncRealtimeMessage::from_json("{\"type\":\"connection_init\"}"),
        Ok(AppSyncRealtimeMessage::ConnectionInit)
    );
    assert_eq!(
        AppSyncRealtimeMessage::from_json("{\"type\":\"ka\"}"),
        Err(ProtocolParseError::Unrecognized)
    );
    assert_eq!(
        AppSyncRealtimeMessage::from_json("{\"type\":\"send_message\"}"),
        Err(ProtocolParseError::Unrecognized)
    );
    assert_eq!(
        AppSyncRealtimeMessage::from_json("{\"type\":\"connection_ack\"}"),
        Err(ProtocolParseError::Malformed)
    );
    assert_eq!(AppSyncRealtimeMessage::from_json("[]"), Err(ProtocolParseError::Malformed));
}
