use native_websocket::message::{AppSyncConnectionAckPayload, ProtocolParseError, WebsocketMessage};
use native_websocket::protocol::{ConnectionLifecycleState, Diagnostic, Inbound};
use native_websocket::signal::AppSignal;

use native_websocket::protocol::ConnectionLifecycleState::{
    Acknowledged, Disconnected, InitializationSent, Uninitialized,
};

fn ack(timeout_ms: u64) -> WebsocketMessage {
    WebsocketMessage::ConnectionAck(AppSyncConnectionAckPayload { connection_timout_ms: timeout_ms })
}

fn text(message: &WebsocketMessage) -> Inbound {
    Inbound::Text(message.to_json())
}

fn all_states() -> Vec<ConnectionLifecycleState> {
    vec![Uninitialized, InitializationSent, Acknowledged(5000), Disconnected]
}

#[test]
fn init_is_sent_once_when_the_channel_is_ready() {
    let (state, frame) = Uninitialized.on_channel_ready();
    assert_eq!(state, InitializationSent);
    assert_eq!(frame.as_deref(), Some("{\"type\":\"connection_init\"}"));

    let (state, frame) = state.on_channel_ready();
    assert_eq!(state, InitializationSent);
    assert_eq!(frame, None);

    for state in [Acknowledged(1), Disconnected] {
        assert_eq!(state.on_channel_ready(), (state, None));
    }
}

#[test]
fn ack_keepalives_close() {
    let frames = vec![
        text(&ack(5000)),
        text(&WebsocketMessage::KeepAlive),
        text(&WebsocketMessage::KeepAlive),
        Inbound::Close,
    ];
    let mut state = InitializationSent;
    let mut states = Vec::new();
    let mut signals = Vec::new();
    let mut diagnostics = Vec::new();
    for frame in &frames {
        let (next, reaction) = state.on_inbound(frame);
        state = next;
        states.push(state);
        signals.extend(reaction.signal);
        diagnostics.extend(reaction.diagnostic);
    }
    assert_eq!(states, vec![Acknowledged(5000), Acknowledged(5000), Acknowledged(5000), Disconnected]);
    assert_eq!(
        signals,
        vec![
            AppSignal::ReceiveMessage(ack(5000)),
            AppSignal::ReceiveMessage(WebsocketMessage::KeepAlive),
            AppSignal::ReceiveMessage(WebsocketMessage::KeepAlive),
            AppSignal::WebsocketDisconnected,
        ]
    );
    assert_eq!(
        signals.iter().filter(|s| **s == AppSignal::WebsocketDisconnected).count(),
        1
    );
    assert!(diagnostics.is_empty());
}

#[test]
fn feeding_the_same_frames_in_one_go() {
    let frames = vec![
        text(&ack(5000)),
        text(&WebsocketMessage::KeepAlive),
        text(&WebsocketMessage::KeepAlive),
        Inbound::Close,
    ];
    let (state, signals) = InitializationSent.feed(&frames);
    assert_eq!(state, Disconnected);
    assert_eq!(signals.len(), 4);
    assert_eq!(signals[3], AppSignal::WebsocketDisconnected);
    assert_eq!(
        signals.iter().filter(|s| **s == AppSignal::WebsocketDisconnected).count(),
        1
    );
}

#[test]
fn ack_before_init_does_not_acknowledge() {
    let (state, reaction) = Uninitialized.on_inbound(&text(&ack(5000)));
    assert_eq!(state, Uninitialized);
    assert_eq!(reaction.signal, Some(AppSignal::ReceiveMessage(ack(5000))));
    assert!(reaction.keep_reading);
}

#[test]
fn a_second_ack_keeps_the_first_timeout() {
    let (state, _) = InitializationSent.on_inbound(&text(&ack(5000)));
    let (state, reaction) = state.on_inbound(&text(&ack(9000)));
    assert_eq!(state, Acknowledged(5000));
    assert_eq!(reaction.signal, Some(AppSignal::ReceiveMessage(ack(9000))));
}

#[test]
fn application_data_is_handed_to_the_host() {
    let data = WebsocketMessage::ReceiveMessage { message: "hello".to_string() };
    let (state, reaction) = Acknowledged(5000).on_inbound(&text(&data));
    assert_eq!(state, Acknowledged(5000));
    assert_eq!(reaction.signal, Some(AppSignal::ReceiveMessage(data)));
    assert_eq!(reaction.diagnostic, None);
    assert!(reaction.keep_reading);
}

#[test]
fn a_frame_that_is_no_message_is_dropped() {
    for state in [Uninitialized, InitializationSent, Acknowledged(5000)] {
        let (next, reaction) = state.on_inbound(&Inbound::Text("{\"type\":\"data\"}".to_string()));
        assert_eq!(next, state);
        assert_eq!(reaction.signal, None);
        assert_eq!(reaction.diagnostic, Some(Diagnostic::Dropped(ProtocolParseError::Unrecognized)));
        assert!(reaction.keep_reading);

        let (next, reaction) = state.on_inbound(&Inbound::Text("not json".to_string()));
        assert_eq!(next, state);
        assert_eq!(reaction.signal, None);
        assert_eq!(reaction.diagnostic, Some(Diagnostic::Dropped(ProtocolParseError::Malformed)));
        assert!(reaction.keep_reading);
    }
}

#[test]
fn a_frame_of_another_kind_is_dropped() {
    for state in [Uninitialized, InitializationSent, Acknowledged(5000)] {
        let (next, reaction) = state.on_inbound(&Inbound::Unsupported);
        assert_eq!(next, state);
        assert_eq!(reaction.signal, None);
        assert_eq!(reaction.diagnostic, Some(Diagnostic::UnsupportedFrame));
        assert!(reaction.keep_reading);
    }
}

#[test]
fn no_frame_ready_ends_the_turn() {
    for state in [Uninitialized, InitializationSent, Acknowledged(5000)] {
        let (next, reaction) = state.on_inbound(&Inbound::Idle);
        assert_eq!(next, state);
        assert_eq!(reaction.signal, None);
        assert_eq!(reaction.diagnostic, None);
        assert!(!reaction.keep_reading);
    }
}

#[test]
fn close_and_failed_read_disconnect_from_any_live_state() {
    for state in [Uninitialized, InitializationSent, Acknowledged(5000)] {
        for end in [Inbound::Close, Inbound::Broken] {
            let (next, reaction) = state.on_inbound(&end);
            assert_eq!(next, Disconnected);
            assert_eq!(reaction.signal, Some(AppSignal::WebsocketDisconnected));
            assert_eq!(reaction.diagnostic, None);
            assert!(!reaction.keep_reading);
        }
    }
}

#[test]
fn nothing_follows_disconnected() {
    let reads = vec![
        Inbound::Close,
        Inbound::Broken,
        Inbound::Idle,
        Inbound::Unsupported,
        text(&WebsocketMessage::KeepAlive),
        text(&ack(1)),
        Inbound::Text("garbage".to_string()),
    ];
    for read in &reads {
        let (next, reaction) = Disconnected.on_inbound(read);
        assert_eq!(next, Disconnected);
        assert_eq!(reaction.signal, None);
        assert_eq!(reaction.diagnostic, None);
        assert!(!reaction.keep_reading);
    }
    assert_eq!(Disconnected.feed(&reads), (Disconnected, vec![]));
}

#[test]
fn several_closing_conditions_tell_of_one_disconnect() {
    let reads = vec![
        text(&WebsocketMessage::KeepAlive),
        Inbound::Close,
        Inbound::Close,
        Inbound::Broken,
        text(&WebsocketMessage::KeepAlive),
    ];
    for state in [Uninitialized, InitializationSent, Acknowledged(5000)] {
        let (end, signals) = state.feed(&reads);
        assert_eq!(end, Disconnected);
        assert_eq!(
            signals,
            vec![
                AppSignal::ReceiveMessage(WebsocketMessage::KeepAlive),
                AppSignal::WebsocketDisconnected,
            ]
        );
    }
}

#[test]
fn without_a_closing_condition_nobody_is_told_of_a_disconnect() {
    let reads = vec![
        text(&ack(7)),
        Inbound::Idle,
        Inbound::Unsupported,
        Inbound::Text("{}".to_string()),
        text(&WebsocketMessage::KeepAlive),
    ];
    let (end, signals) = InitializationSent.feed(&reads);
    assert_eq!(end, Acknowledged(7));
    assert_eq!(
        signals,
        vec![
            AppSignal::ReceiveMessage(ack(7)),
            AppSignal::ReceiveMessage(WebsocketMessage::KeepAlive),
        ]
    );
}

#[test]
fn feeding_nothing_changes_nothing() {
    for state in all_states() {
        assert_eq!(state.feed(&vec![]), (state, vec![]));
    }
}

#[test]
fn on_message_takes_the_outcome_of_parsing() {
    let (state, reaction) = InitializationSent.on_message(Ok(ack(300000)));
    assert_eq!(state, Acknowledged(300000));
    assert_eq!(reaction.signal, Some(AppSignal::ReceiveMessage(ack(300000))));
    assert!(reaction.keep_reading);

    let (state, reaction) = state.on_message(Err(ProtocolParseError::Malformed));
    assert_eq!(state, Acknowledged(300000));
    assert_eq!(reaction.signal, None);
    assert_eq!(reaction.diagnostic, Some(Diagnostic::Dropped(ProtocolParseError::Malformed)));
    assert!(reaction.keep_reading);

    let (state, reaction) = Disconnected.on_message(Ok(WebsocketMessage::KeepAlive));
    assert_eq!(state, Disconnected);
    assert_eq!(reaction.signal, None);
    assert!(!reaction.keep_reading);
}

#[test]
fn messages_go_out_as_soon_as_a_channel_exists() {
    let message = WebsocketMessage::SendMessage { message: "hi".to_string() };
    for state in [Uninitialized, InitializationSent, Acknowledged(5000)] {
        assert_eq!(
            state.on_send(&message).as_deref(),
            Some("{\"type\":\"send_message\",\"message\":\"hi\"}")
        );
    }
    assert_eq!(Disconnected.on_send(&message), None);
}

#[test]
fn only_send_requests_ask_for_a_frame() {
    let message = WebsocketMessage::SendMessage { message: "hi".to_string() };
    let state = Acknowledged(5000);
    assert_eq!(
        state.on_signal(&AppSignal::SendMessage(message.clone())).as_deref(),
        Some("{\"type\":\"send_message\",\"message\":\"hi\"}")
    );
    assert_eq!(state.on_signal(&AppSignal::ReceiveMessage(message.clone())), None);
    assert_eq!(state.on_signal(&AppSignal::WebsocketConnected), None);
    assert_eq!(state.on_signal(&AppSignal::WebsocketDisconnected), None);
    assert_eq!(state.on_signal(&AppSignal::ConnectWebsocket("token".to_string())), None);
    assert_eq!(Disconnected.on_signal(&AppSignal::SendMessage(message)), None);
}

#[test]
fn the_lifecycle_never_goes_back() {
    fn rank(state: ConnectionLifecycleState) -> u8 {
        match state {
            Uninitialized => 0,
            InitializationSent => 1,
            Acknowledged(_) => 2,
            Disconnected => 3,
        }
    }
    let reads = vec![
        Inbound::Close,
        Inbound::Broken,
        Inbound::Idle,
        Inbound::Unsupported,
        text(&WebsocketMessage::ConnectionInit),
        text(&WebsocketMessage::KeepAlive),
        text(&ack(1)),
        Inbound::Text("garbage".to_string()),
    ];
    for state in all_states() {
        for read in &reads {
            let (next, _) = state.on_inbound(read);
            assert!(rank(next) >= rank(state));
        }
        assert!(rank(state.on_channel_ready().0) >= rank(state));
    }
}
