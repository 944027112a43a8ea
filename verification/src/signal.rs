//! The signals that cross the boundary between the client and its host.

use vstd::prelude::*;
use crate::error::ConnectError;
use crate::message::{MessageView, WebsocketMessage};

verus! {

/// A signal between the host application and the client.
#[derive(Clone, Debug, PartialEq, Eq)]
pub enum AppSignal {
    /// The host asks for a connection; the value is the bearer token.
    ConnectWebsocket(String),
    /// The channel is established and handed over.
    WebsocketConnected,
    /// The connection attempt ended without a channel.
    WebsocketFailed(ConnectError),
    /// The channel is closed.
    WebsocketDisconnected,
    /// The host asks for a message to be sent.
    SendMessage(WebsocketMessage),
    /// A message came in.
    ReceiveMessage(WebsocketMessage),
}

/// A signal as a mathematical value.
pub enum SignalView {
    ConnectWebsocket(Seq<char>),
    WebsocketConnected,
    WebsocketFailed(ConnectError),
    WebsocketDisconnected,
    SendMessage(MessageView),
    ReceiveMessage(MessageView),
}

impl View for AppSignal {
    type V = SignalView;

    open spec fn view(&self) -> SignalView {
        match self {
            AppSignal::ConnectWebsocket(token) => SignalView::ConnectWebsocket(token@),
            AppSignal::WebsocketConnected => SignalView::WebsocketConnected,
            AppSignal::WebsocketFailed(error) => SignalView::WebsocketFailed(*error),
            AppSignal::WebsocketDisconnected => SignalView::WebsocketDisconnected,
            AppSignal::SendMessage(message) => SignalView::SendMessage(message@),
            AppSignal::ReceiveMessage(message) => SignalView::ReceiveMessage(message@),
        }
    }
}

/// A signal that may be absent, as a mathematical value.
pub open spec fn signal_view(signal: Option<AppSignal>) -> Option<SignalView> {
    match signal {
        Some(s) => Some(s@),
        None => None,
    }
}

/// Signals as mathematical values.
pub open spec fn signal_views(signals: Seq<AppSignal>) -> Seq<SignalView> {
    signals.map_values(|signal: AppSignal| signal@)
}

} // verus!
