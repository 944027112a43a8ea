//! The messages of the realtime sub-protocol and their JSON wire form.
//!
//! Every message is a JSON object whose member `type` tells the kinds apart.

use vstd::prelude::*;
use vstd::string::StringExecFns;
use crate::json::{json_document, parse_document, quote_str, string_literal, JsonValue};
use crate::text::{decimal_string, decimal_text, text_is};

verus! {

/// The payload of a connection acknowledgement.
#[derive(Clone, Copy, Debug, PartialEq, Eq, Structural)]
pub struct AppSyncConnectionAckPayload {
    /// The keep-alive timeout that the backend announces, in milliseconds.
    pub connection_timout_ms: u64,
}

/// A message of the realtime sub-protocol.
#[derive(Clone, Debug, PartialEq, Eq)]
pub enum WebsocketMessage {
    /// `{"type":"connection_init"}`
    ConnectionInit,
    /// `{"type":"connection_ack","payload":{"connectionTimeoutMs":10000}}`
    ConnectionAck(AppSyncConnectionAckPayload),
    /// `{"type":"ka"}`
    KeepAlive,
    /// Application data on its way out.
    SendMessage { message: String },
    /// Application data that came in.
    ReceiveMessage { message: String },
}

/// A message as a mathematical value.
pub enum MessageView {
    ConnectionInit,
    ConnectionAck(u64),
    KeepAlive,
    SendMessage(Seq<char>),
    ReceiveMessage(Seq<char>),
}

impl View for WebsocketMessage {
    type V = MessageView;

    open spec fn view(&self) -> MessageView {
        match self {
            WebsocketMessage::ConnectionInit => MessageView::ConnectionInit,
            WebsocketMessage::ConnectionAck(payload) => MessageView::ConnectionAck(
                payload.connection_timout_ms,
            ),
            WebsocketMessage::KeepAlive => MessageView::KeepAlive,
            WebsocketMessage::SendMessage { message } => MessageView::SendMessage(message@),
            WebsocketMessage::ReceiveMessage { message } => MessageView::ReceiveMessage(message@),
        }
    }
}

/// Why an inbound text frame yields no message.
#[derive(Clone, Copy, Debug, PartialEq, Eq, Structural)]
pub enum ProtocolParseError {
    /// The text is not JSON, is no object, has no string member `type`, or
    /// lacks a member that its kind of message needs.
    Malformed,
    /// The member `type` names no kind of message known here.
    Unrecognized,
}

/// The wire form of a message.
pub open spec fn wire_text(message: MessageView) -> Seq<char> {
    match message {
        MessageView::ConnectionInit => "{\"type\":\"connection_init\"}"@,
        MessageView::ConnectionAck(timeout_ms) => {
            "{\"type\":\"connection_ack\",\"payload\":{\"connectionTimeoutMs\":"@ + decimal_text(
                timeout_ms as nat,
            ) + "}}"@
        },
        MessageView::KeepAlive => "{\"type\":\"ka\"}"@,
        MessageView::SendMessage(body) => {
            "{\"type\":\"send_message\",\"message\":"@ + string_literal(body) + "}"@
        },
        MessageView::ReceiveMessage(body) => {
            "{\"type\":\"receive_message\",\"message\":"@ + string_literal(body) + "}"@
        },
    }
}

/// The string member `message` of a document.
pub open spec fn body_of(document: JsonValue) -> Option<Seq<char>> {
    match document.member("message"@) {
        Some(value) => value.text(),
        None => None,
    }
}

/// The keep-alive timeout of an acknowledgement: the member
/// `connectionTimeoutMs` of the member `payload`.
pub open spec fn timeout_of(document: JsonValue) -> Option<u64> {
    match document.member("payload"@) {
        Some(payload) => match payload.member("connectionTimeoutMs"@) {
            Some(value) => value.count(),
            None => None,
        },
        None => None,
    }
}

/// The message that a tag and the rest of its document stand for.
pub open spec fn tagged(tag: Seq<char>, document: JsonValue) -> Result<
    MessageView,
    ProtocolParseError,
> {
    if tag == "connection_init"@ {
        Ok(MessageView::ConnectionInit)
    } else if tag == "connection_ack"@ {
        match timeout_of(document) {
            Some(timeout_ms) => Ok(MessageView::ConnectionAck(timeout_ms)),
            None => Err(ProtocolParseError::Malformed),
        }
    } else if tag == "ka"@ {
        Ok(MessageView::KeepAlive)
    } else if tag == "send_message"@ {
        match body_of(document) {
            Some(body) => Ok(MessageView::SendMessage(body)),
            None => Err(ProtocolParseError::Malformed),
        }
    } else if tag == "receive_message"@ {
        match body_of(document) {
            Some(body) => Ok(MessageView::ReceiveMessage(body)),
            None => Err(ProtocolParseError::Malformed),
        }
    } else {
        Err(ProtocolParseError::Unrecognized)
    }
}

/// The string member `type` of a document.
pub open spec fn tag_of(document: JsonValue) -> Option<Seq<char>> {
    match document.member("type"@) {
        Some(value) => value.text(),
        None => None,
    }
}

/// The message that a document stands for.
pub open spec fn decoded(document: JsonValue) -> Result<MessageView, ProtocolParseError> {
    match tag_of(document) {
        Some(tag) => tagged(tag, document),
        None => Err(ProtocolParseError::Malformed),
    }
}

/// The message that a text frame stands for.
pub open spec fn parsed(text: Seq<char>) -> Result<MessageView, ProtocolParseError> {
    match json_document(text) {
        Some(document) => decoded(document),
        None => Err(ProtocolParseError::Malformed),
    }
}

/// Whether `tag` names a kind of message.
pub open spec fn is_known_tag(tag: Seq<char>) -> bool {
    tag == "connection_init"@ || tag == "connection_ack"@ || tag == "ka"@ || tag == "send_message"@
        || tag == "receive_message"@
}

/// The tag that a message is sent under.
pub open spec fn tag_for(message: MessageView) -> Seq<char> {
    match message {
        MessageView::ConnectionInit => "connection_init"@,
        MessageView::ConnectionAck(_) => "connection_ack"@,
        MessageView::KeepAlive => "ka"@,
        MessageView::SendMessage(_) => "send_message"@,
        MessageView::ReceiveMessage(_) => "receive_message"@,
    }
}

/// Whether a document spells out `message`: its member `type` is the tag of
/// the message, and the members that the kind needs hold its values.
pub open spec fn spells(document: JsonValue, message: MessageView) -> bool {
    &&& tag_of(document) == Some(tag_for(message))
    &&& match message {
        MessageView::ConnectionAck(timeout_ms) => timeout_of(document) == Some(timeout_ms),
        MessageView::SendMessage(body) => body_of(document) == Some(body),
        MessageView::ReceiveMessage(body) => body_of(document) == Some(body),
        _ => true,
    }
}

/// The outcome of reading a message, with the message as a mathematical value.
pub open spec fn outcome_view(outcome: Result<WebsocketMessage, ProtocolParseError>) -> Result<
    MessageView,
    ProtocolParseError,
> {
    match outcome {
        Ok(message) => Ok(message@),
        Err(error) => Err(error),
    }
}

fn read_body(document: &JsonValue) -> (r: Option<String>)
    ensures
        match r {
            Some(body) => body_of(*document) == Some(body@),
            None => body_of(*document) is None,
        },
{
    match document.get("message") {
        Some(value) => match value.as_text() {
            Some(body) => Some(body.clone()),
            None => None,
        },
        None => None,
    }
}

pub(crate) fn read_timeout(document: &JsonValue) -> (r: Option<u64>)
    ensures
        r == timeout_of(*document),
{
    match document.get("payload") {
        Some(payload) => match payload.get("connectionTimeoutMs") {
            Some(value) => value.as_count(),
            None => None,
        },
        None => None,
    }
}

impl WebsocketMessage {
    /// Writes the message in its wire form.
    pub fn to_json(&self) -> (r: String)
        ensures
            r@ == wire_text(self@),
    {
        match self {
            WebsocketMessage::ConnectionInit => String::from_str("{\"type\":\"connection_init\"}"),
            WebsocketMessage::ConnectionAck(payload) => {
                let mut text = String::from_str(
                    "{\"type\":\"connection_ack\",\"payload\":{\"connectionTimeoutMs\":",
                );
                let digits = decimal_string(payload.connection_timout_ms);
                text.append(digits.as_str());
                text.append("}}");
                text
            },
            WebsocketMessage::KeepAlive => String::from_str("{\"type\":\"ka\"}"),
            WebsocketMessage::SendMessage { message } => {
                let mut text = String::from_str("{\"type\":\"send_message\",\"message\":");
                let body = quote_str(message.as_str());
                text.append(body.as_str());
                text.append("}");
                text
            },
            WebsocketMessage::ReceiveMessage { message } => {
                let mut text = String::from_str("{\"type\":\"receive_message\",\"message\":");
                let body = quote_str(message.as_str());
                text.append(body.as_str());
                text.append("}");
                text
            },
        }
    }

    /// Reads the message that a parsed document stands for.
    ///
    /// The member `type` decides the kind. Members that the kind does not
    /// need are passed over.
    pub fn from_document(document: &JsonValue) -> (r: Result<WebsocketMessage, ProtocolParseError>)
        ensures
            outcome_view(r) == decoded(*document),
    {
        let tag = match document.get("type") {
            Some(value) => match value.as_text() {
                Some(tag) => tag,
                None => { return Err(ProtocolParseError::Malformed); },
            },
            None => { return Err(ProtocolParseError::Malformed); },
        };
        if text_is(tag, "connection_init") {
            Ok(WebsocketMessage::ConnectionInit)
        } else if text_is(tag, "connection_ack") {
            match read_timeout(document) {
                Some(timeout_ms) => Ok(
                    WebsocketMessage::ConnectionAck(
                        AppSyncConnectionAckPayload { connection_timout_ms: timeout_ms },
                    ),
                ),
                None => Err(ProtocolParseError::Malformed),
            }
        } else if text_is(tag, "ka") {
            Ok(WebsocketMessage::KeepAlive)
        } else if text_is(tag, "send_message") {
            match read_body(document) {
                Some(message) => Ok(WebsocketMessage::SendMessage { message }),
                None => Err(ProtocolParseError::Malformed),
            }
        } else if text_is(tag, "receive_message") {
            match read_body(document) {
                Some(message) => Ok(WebsocketMessage::ReceiveMessage { message }),
                None => Err(ProtocolParseError::Malformed),
            }
        } else {
            Err(ProtocolParseError::Unrecognized)
        }
    }

    /// Reads the message that a text frame stands for.
    pub fn from_json(text: &str) -> (r: Result<WebsocketMessage, ProtocolParseError>)
        ensures
            outcome_view(r) == parsed(text@),
    {
        match parse_document(text) {
            Some(document) => WebsocketMessage::from_document(&document),
            None => Err(ProtocolParseError::Malformed),
        }
    }
}

/// The five tags differ from one another.
proof fn tags_differ()
    ensures
        "connection_init"@ != "connection_ack"@,
        "connection_init"@ != "ka"@,
        "connection_init"@ != "send_message"@,
        "connection_init"@ != "receive_message"@,
        "connection_ack"@ != "ka"@,
        "connection_ack"@ != "send_message"@,
        "connection_ack"@ != "receive_message"@,
        "ka"@ != "send_message"@,
        "ka"@ != "receive_message"@,
        "send_message"@ != "receive_message"@,
{
    reveal_strlit("connection_init");
    reveal_strlit("connection_ack");
    reveal_strlit("ka");
    reveal_strlit("send_message");
    reveal_strlit("receive_message");
    assert("connection_init"@[11] != "connection_ack"@[11]);
    assert("send_message"@[0] != "receive_message"@[0]);
    assert("ka"@.len() == 2);
    assert("connection_init"@.len() == 15);
    assert("connection_ack"@.len() == 14);
}

/// Reading inverts spelling: a document is read as a message exactly where
/// it spells that message out. So whatever is written under the tag of a
/// message, with its values in their members, is read back as that message.
pub proof fn reads_what_is_spelled(document: JsonValue, message: MessageView)
    ensures
        decoded(document) == Ok::<MessageView, ProtocolParseError>(message) <==> spells(
            document,
            message,
        ),
{
    tags_differ();
}

/// A document is turned down as unrecognized exactly where its member `type`
/// is a string that names no kind of message; every other document that is
/// not read is malformed.
pub proof fn unknown_tags_are_unrecognized(document: JsonValue)
    ensures
        decoded(document) == Err::<MessageView, ProtocolParseError>(
            ProtocolParseError::Unrecognized,
        ) <==> match tag_of(document) {
            Some(tag) => !is_known_tag(tag),
            None => false,
        },
{
}

} // verus!
