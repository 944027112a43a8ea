//! The messages that open a connection, on their own.

use vstd::prelude::*;
use crate::json::{json_document, parse_document, JsonValue};
use crate::message::{read_timeout, tag_of, timeout_of, wire_text, MessageView, ProtocolParseError, WebsocketMessage};
use crate::text::text_is;

pub use crate::message::AppSyncConnectionAckPayload;

verus! {

/// A message of the connection phase.
#[derive(Clone, Copy, Debug, PartialEq, Eq, Structural)]
pub enum AppSyncRealtimeMessage {
    /// `{"type":"connection_init"}`
    ConnectionInit,
    /// `{"type":"connection_ack","payload":{"connectionTimeoutMs":10000}}`
    ConnectionAck { payload: AppSyncConnectionAckPayload },
}

impl AppSyncRealtimeMessage {
    /// The message as a mathematical value.
    pub open spec fn message(self) -> MessageView {
        match self {
            AppSyncRealtimeMessage::ConnectionInit => MessageView::ConnectionInit,
            AppSyncRealtimeMessage::ConnectionAck { payload } => MessageView::ConnectionAck(
                payload.connection_timout_ms,
            ),
        }
    }

    /// The message of the connection phase that a document stands for.
    pub open spec fn decoded(document: JsonValue) -> Result<
        AppSyncRealtimeMessage,
        ProtocolParseError,
    > {
        match tag_of(document) {
            None => Err(ProtocolParseError::Malformed),
            Some(tag) => if tag == "connection_init"@ {
                Ok(AppSyncRealtimeMessage::ConnectionInit)
            } else if tag == "connection_ack"@ {
                match timeout_of(document) {
                    Some(timeout_ms) => Ok(
                        AppSyncRealtimeMessage::ConnectionAck {
                            payload: AppSyncConnectionAckPayload {
                                connection_timout_ms: timeout_ms,
                            },
                        },
                    ),
                    None => Err(ProtocolParseError::Malformed),
                }
            } else {
                Err(ProtocolParseError::Unrecognized)
            },
        }
    }

    /// The message of the connection phase that a text frame stands for.
    pub open spec fn parsed(text: Seq<char>) -> Result<AppSyncRealtimeMessage, ProtocolParseError> {
        match json_document(text) {
            Some(document) => Self::decoded(document),
            None => Err(ProtocolParseError::Malformed),
        }
    }

    /// Writes the message in its wire form.
    pub fn to_json(&self) -> (r: String)
        ensures
            r@ == wire_text(self.message()),
    {
        match self {
            AppSyncRealtimeMessage::ConnectionInit => WebsocketMessage::ConnectionInit.to_json(),
            AppSyncRealtimeMessage::ConnectionAck { payload } => WebsocketMessage::ConnectionAck(
                *payload,
            ).to_json(),
        }
    }

    /// Reads the message that a parsed document stands for. A document
    /// under any other tag is unrecognized.
    pub fn from_document(document: &JsonValue) -> (r: Result<
        AppSyncRealtimeMessage,
        ProtocolParseError,
    >)
        ensures
            r == Self::decoded(*document),
    {
        let tag = match document.get("type") {
            Some(value) => match value.as_text() {
                Some(tag) => tag,
                None => { return Err(ProtocolParseError::Malformed); },
            },
            None => { return Err(ProtocolParseError::Malformed); },
        };
        if text_is(tag, "connection_init") {
            Ok(AppSyncRealtimeMessage::ConnectionInit)
        } else if text_is(tag, "connection_ack") {
            match read_timeout(document) {
                Some(timeout_ms) => Ok(
                    AppSyncRealtimeMessage::ConnectionAck {
                        payload: AppSyncConnectionAckPayload { connection_timout_ms: timeout_ms },
                    },
                ),
                None => Err(ProtocolParseError::Malformed),
            }
        } else {
            Err(ProtocolParseError::Unrecognized)
        }
    }

    /// Reads the message that a text frame stands for.
    pub fn from_json(text: &str) -> (r: Result<AppSyncRealtimeMessage, ProtocolParseError>)
        ensures
            r == Self::parsed(text@),
    {
        match parse_document(text) {
            Some(document) => Self::from_document(&document),
            None => Err(ProtocolParseError::Malformed),
        }
    }
}

} // verus!
