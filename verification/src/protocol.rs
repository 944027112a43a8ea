//! The realtime sub-protocol as a state machine.
//!
//! The machine owns no socket. The caller reads a frame, hands it in, and
//! gets back the next state together with what to tell the host and whether
//! to go on reading in this turn.
//!
//! Two choices are made here once and for all. The keep-alive timeout of the
//! acknowledgement is recorded and reported, and nothing acts on it: silence
//! does not end a connection, only a close frame or a failed read does. And a
//! frame is written when it is due, once: a write that fails is for the
//! caller to report, the machine neither queues nor repeats it.

use vstd::prelude::*;
use crate::message::{outcome_view, parsed, wire_text, MessageView, ProtocolParseError, WebsocketMessage};
use crate::signal::{signal_view, signal_views, AppSignal, SignalView};

verus! {

/// Where a connection stands in its life.
#[derive(Clone, Copy, Debug, PartialEq, Eq, Structural)]
pub enum ConnectionLifecycleState {
    /// The channel exists; nothing has been sent.
    Uninitialized,
    /// The initialization frame is out; the acknowledgement is awaited.
    InitializationSent,
    /// The backend acknowledged the connection with this keep-alive timeout,
    /// in milliseconds.
    Acknowledged(u64),
    /// The connection is over. No state follows this one.
    Disconnected,
}

/// What a read on the channel gave.
#[derive(Clone, Debug, PartialEq, Eq)]
pub enum Inbound {
    /// A text frame.
    Text(String),
    /// A close frame.
    Close,
    /// A frame of a kind that the protocol does not use.
    Unsupported,
    /// No frame is ready; the read would block.
    Idle,
    /// The read failed.
    Broken,
}

/// An inbound frame after parsing, as a mathematical value.
pub enum Event {
    Message(MessageView),
    Rejected(ProtocolParseError),
    Close,
    Unsupported,
    Idle,
    Broken,
}

/// Why a frame was dropped.
#[derive(Clone, Copy, Debug, PartialEq, Eq, Structural)]
pub enum Diagnostic {
    /// A text frame that stands for no message.
    Dropped(ProtocolParseError),
    /// A frame that is neither text nor close.
    UnsupportedFrame,
}

/// What the caller does after a frame.
#[derive(Clone, Debug, PartialEq, Eq)]
pub struct Reaction {
    /// What the host is told, if anything.
    pub signal: Option<AppSignal>,
    /// Why the frame was dropped, if it was.
    pub diagnostic: Option<Diagnostic>,
    /// Whether to read the next frame in this turn.
    pub keep_reading: bool,
}

/// The event that an inbound frame amounts to.
pub open spec fn event_of(inbound: Inbound) -> Event {
    match inbound {
        Inbound::Text(text) => match parsed(text@) {
            Ok(message) => Event::Message(message),
            Err(error) => Event::Rejected(error),
        },
        Inbound::Close => Event::Close,
        Inbound::Unsupported => Event::Unsupported,
        Inbound::Idle => Event::Idle,
        Inbound::Broken => Event::Broken,
    }
}

/// The event that the outcome of parsing a text frame amounts to.
pub open spec fn event_of_parse(outcome: Result<MessageView, ProtocolParseError>) -> Event {
    match outcome {
        Ok(message) => Event::Message(message),
        Err(error) => Event::Rejected(error),
    }
}

impl ConnectionLifecycleState {
    /// How far the state is along the life of a connection.
    pub open spec fn rank(self) -> nat {
        match self {
            ConnectionLifecycleState::Uninitialized => 0,
            ConnectionLifecycleState::InitializationSent => 1,
            ConnectionLifecycleState::Acknowledged(_) => 2,
            ConnectionLifecycleState::Disconnected => 3,
        }
    }

    /// The state after an event.
    pub open spec fn next(self, event: Event) -> ConnectionLifecycleState {
        match (self, event) {
            (ConnectionLifecycleState::Disconnected, _) => ConnectionLifecycleState::Disconnected,
            (_, Event::Close) => ConnectionLifecycleState::Disconnected,
            (_, Event::Broken) => ConnectionLifecycleState::Disconnected,
            (
                ConnectionLifecycleState::InitializationSent,
                Event::Message(MessageView::ConnectionAck(timeout_ms)),
            ) => ConnectionLifecycleState::Acknowledged(timeout_ms),
            _ => self,
        }
    }

    /// What the host is told about an event.
    pub open spec fn signal(self, event: Event) -> Option<SignalView> {
        match (self, event) {
            (ConnectionLifecycleState::Disconnected, _) => None,
            (_, Event::Message(message)) => Some(SignalView::ReceiveMessage(message)),
            (_, Event::Close) => Some(SignalView::WebsocketDisconnected),
            (_, Event::Broken) => Some(SignalView::WebsocketDisconnected),
            _ => None,
        }
    }

    /// Why an event's frame is dropped, if it is.
    pub open spec fn diagnostic(self, event: Event) -> Option<Diagnostic> {
        match (self, event) {
            (ConnectionLifecycleState::Disconnected, _) => None,
            (_, Event::Rejected(error)) => Some(Diagnostic::Dropped(error)),
            (_, Event::Unsupported) => Some(Diagnostic::UnsupportedFrame),
            _ => None,
        }
    }

    /// The state once the channel is handed over.
    pub open spec fn initialized(self) -> ConnectionLifecycleState {
        match self {
            ConnectionLifecycleState::Uninitialized => ConnectionLifecycleState::InitializationSent,
            _ => self,
        }
    }

    /// The frame that is due when the channel is handed over: the
    /// initialization frame, unless it went out before.
    pub open spec fn opening_frame(self) -> Option<Seq<char>> {
        match self {
            ConnectionLifecycleState::Uninitialized => Some(wire_text(MessageView::ConnectionInit)),
            _ => None,
        }
    }

    /// The frame that carries `message` out, as long as the channel exists.
    pub open spec fn outbound_frame(self, message: MessageView) -> Option<Seq<char>> {
        match self {
            ConnectionLifecycleState::Disconnected => None,
            _ => Some(wire_text(message)),
        }
    }

    /// The frame that a signal of the host asks for: the message of a send
    /// request, as long as the channel exists, and nothing for any other
    /// signal.
    pub open spec fn frame_for(self, signal: SignalView) -> Option<Seq<char>> {
        match signal {
            SignalView::SendMessage(message) => self.outbound_frame(message),
            _ => None,
        }
    }

    /// Whether the caller reads on after an event.
    pub open spec fn reads_on(self, event: Event) -> bool {
        match (self, event) {
            (ConnectionLifecycleState::Disconnected, _) => false,
            (_, Event::Message(_)) => true,
            (_, Event::Rejected(_)) => true,
            (_, Event::Unsupported) => true,
            _ => false,
        }
    }
}

impl Reaction {
    /// Whether this reaction is the one that `state` owes to `event`.
    pub open spec fn answers(self, state: ConnectionLifecycleState, event: Event) -> bool {
        &&& signal_view(self.signal) == state.signal(event)
        &&& self.diagnostic == state.diagnostic(event)
        &&& self.keep_reading == state.reads_on(event)
    }
}

/// A text that may be absent, as a mathematical value.
pub open spec fn text_view(text: Option<String>) -> Option<Seq<char>> {
    match text {
        Some(t) => Some(t@),
        None => None,
    }
}


impl ConnectionLifecycleState {
    /// The channel has just been handed over: the initialization frame is
    /// due, once.
    ///
    /// Returns the text to send. The state moves on whether or not the write
    /// then succeeds.
    pub fn on_channel_ready(self) -> (r: (ConnectionLifecycleState, Option<String>))
        ensures
            r.0 == self.initialized(),
            text_view(r.1) == self.opening_frame(),
    {
        match self {
            ConnectionLifecycleState::Uninitialized => {
                let text = WebsocketMessage::ConnectionInit.to_json();
                (ConnectionLifecycleState::InitializationSent, Some(text))
            },
            _ => (self, None),
        }
    }

    /// The host asks for `message` to be sent.
    ///
    /// Returns the text frame to write, as long as the channel exists: the
    /// acknowledgement need not have come. The state does not change.
    pub fn on_send(self, message: &WebsocketMessage) -> (r: Option<String>)
        ensures
            text_view(r) == self.outbound_frame(message@),
    {
        match self {
            ConnectionLifecycleState::Disconnected => None,
            _ => Some(message.to_json()),
        }
    }

    /// The host sent a signal; the text frame to write, if it asks for one.
    pub fn on_signal(self, signal: &AppSignal) -> (r: Option<String>)
        ensures
            text_view(r) == self.frame_for(signal@),
    {
        match signal {
            AppSignal::SendMessage(message) => self.on_send(message),
            _ => None,
        }
    }

    /// A text frame came in and was parsed with this outcome.
    pub fn on_message(self, outcome: Result<WebsocketMessage, ProtocolParseError>) -> (r: (
        ConnectionLifecycleState,
        Reaction,
    ))
        ensures
            r.0 == self.next(event_of_parse(outcome_view(outcome))),
            r.1.answers(self, event_of_parse(outcome_view(outcome))),
    {
        match self {
            ConnectionLifecycleState::Disconnected => (
                self,
                Reaction { signal: None, diagnostic: None, keep_reading: false },
            ),
            _ => match outcome {
                Ok(message) => {
                    let next = match (self, &message) {
                        (
                            ConnectionLifecycleState::InitializationSent,
                            WebsocketMessage::ConnectionAck(payload),
                        ) => ConnectionLifecycleState::Acknowledged(payload.connection_timout_ms),
                        _ => self,
                    };
                    (
                        next,
                        Reaction {
                            signal: Some(AppSignal::ReceiveMessage(message)),
                            diagnostic: None,
                            keep_reading: true,
                        },
                    )
                },
                Err(error) => (
                    self,
                    Reaction {
                        signal: None,
                        diagnostic: Some(Diagnostic::Dropped(error)),
                        keep_reading: true,
                    },
                ),
            },
        }
    }

    /// A read on the channel gave `inbound`.
    pub fn on_inbound(self, inbound: &Inbound) -> (r: (ConnectionLifecycleState, Reaction))
        ensures
            r.0 == self.next(event_of(*inbound)),
            r.1.answers(self, event_of(*inbound)),
    {
        match self {
            ConnectionLifecycleState::Disconnected => (
                self,
                Reaction { signal: None, diagnostic: None, keep_reading: false },
            ),
            _ => match inbound {
                Inbound::Text(text) => {
                    let outcome = WebsocketMessage::from_json(text.as_str());
                    self.on_message(outcome)
                },
                Inbound::Close | Inbound::Broken => (
                    ConnectionLifecycleState::Disconnected,
                    Reaction {
                        signal: Some(AppSignal::WebsocketDisconnected),
                        diagnostic: None,
                        keep_reading: false,
                    },
                ),
                Inbound::Unsupported => (
                    self,
                    Reaction {
                        signal: None,
                        diagnostic: Some(Diagnostic::UnsupportedFrame),
                        keep_reading: true,
                    },
                ),
                Inbound::Idle => (
                    self,
                    Reaction { signal: None, diagnostic: None, keep_reading: false },
                ),
            },
        }
    }

    /// Hands in a run of reads, in order, and collects what the host is told.
    ///
    /// Every read is handed in, also those after one that ends a turn: what
    /// follows the end of the connection changes nothing and tells nothing.
    pub fn feed(self, reads: &Vec<Inbound>) -> (r: (ConnectionLifecycleState, Vec<AppSignal>))
        ensures
            r.0 == run(self, events_of(reads@)).state,
            signal_views(r.1@) == run(self, events_of(reads@)).signals,
    {
        let mut state = self;
        let mut signals: Vec<AppSignal> = Vec::new();
        let mut i: usize = 0;
        assert(events_of(reads@).take(0) =~= Seq::<Event>::empty());
        assert(signal_views(signals@) =~= Seq::<SignalView>::empty());
        while i < reads.len()
            invariant
                i <= reads.len(),
                state == run(self, events_of(reads@).take(i as int)).state,
                signal_views(signals@) == run(self, events_of(reads@).take(i as int)).signals,
            decreases reads.len() - i,
        {
            let ghost before = signals@;
            let ghost events = events_of(reads@);
            assert(events.take(i as int + 1).drop_last() =~= events.take(i as int));
            assert(events.take(i as int + 1).last() == event_of(reads@[i as int]));
            let (next, reaction) = state.on_inbound(&reads[i]);
            match reaction.signal {
                Some(signal) => {
                    signals.push(signal);
                    assert(signal_views(signals@) =~= signal_views(before) + seq![signal@]);
                },
                None => {
                    assert(signal_views(before) + Seq::<SignalView>::empty() =~= signal_views(before));
                },
            }
            state = next;
            i += 1;
        }
        assert(events_of(reads@).take(reads.len() as int) =~= events_of(reads@));
        (state, signals)
    }
}

/// A state together with everything the host was told on the way to it.
pub struct Run {
    pub state: ConnectionLifecycleState,
    pub signals: Seq<SignalView>,
}

/// The events that a run of reads amounts to.
pub open spec fn events_of(reads: Seq<Inbound>) -> Seq<Event> {
    reads.map_values(|inbound: Inbound| event_of(inbound))
}


/// What the host is told about one event, as a sequence of at most one signal.
pub open spec fn told(state: ConnectionLifecycleState, event: Event) -> Seq<SignalView> {
    match state.signal(event) {
        Some(signal) => seq![signal],
        None => Seq::empty(),
    }
}

/// The state after a sequence of events, and what the host was told.
pub open spec fn run(state: ConnectionLifecycleState, events: Seq<Event>) -> Run
    decreases events.len(),
{
    if events.len() == 0 {
        Run { state, signals: Seq::empty() }
    } else {
        let before = run(state, events.drop_last());
        Run {
            state: before.state.next(events.last()),
            signals: before.signals + told(before.state, events.last()),
        }
    }
}

/// How many of the signals tell of a disconnect.
pub open spec fn disconnects(signals: Seq<SignalView>) -> nat
    decreases signals.len(),
{
    if signals.len() == 0 {
        0
    } else if signals.last() is WebsocketDisconnected {
        disconnects(signals.drop_last()) + 1
    } else {
        disconnects(signals.drop_last())
    }
}

/// Whether an event ends the connection: a close frame or a failed read.
pub open spec fn ends_connection(event: Event) -> bool {
    event is Close || event is Broken
}

/// Whether any of the events ends the connection.
pub open spec fn has_ending(events: Seq<Event>) -> bool {
    exists|i: int| 0 <= i < events.len() && ends_connection(#[trigger] events[i])
}

/// The lifecycle only moves forward: no event takes a connection to an
/// earlier state, and nothing follows `Disconnected`.
pub proof fn lifecycle_only_advances(state: ConnectionLifecycleState, event: Event)
    ensures
        state.next(event).rank() >= state.rank(),
        state == ConnectionLifecycleState::Disconnected ==> state.next(event) == state
            && state.signal(event) is None,
        ends_connection(event) ==> state.next(event) == ConnectionLifecycleState::Disconnected,
        state.next(event) == ConnectionLifecycleState::Disconnected ==> state
            == ConnectionLifecycleState::Disconnected || ends_connection(event),
{
}

/// A frame that yields no message and a frame of an unused kind leave the
/// connection where it is, tell the host nothing, and do not end the turn.
pub proof fn dropped_frames_change_nothing(state: ConnectionLifecycleState, event: Event)
    requires
        event is Rejected || event is Unsupported,
    ensures
        state.next(event) == state,
        state.signal(event) is None,
        state != ConnectionLifecycleState::Disconnected ==> state.reads_on(event)
            && state.diagnostic(event) is Some,
{
}

/// Over any sequence of events the host is told of a disconnect at most once:
/// exactly once where the connection was alive and one of the events ends it,
/// and never otherwise. The connection is over afterwards exactly where it
/// was over before or one of the events ended it.
pub proof fn disconnect_is_told_once(state: ConnectionLifecycleState, events: Seq<Event>)
    ensures
        disconnects(run(state, events).signals) == if state
            != ConnectionLifecycleState::Disconnected && has_ending(events) {
            1nat
        } else {
            0nat
        },
        run(state, events).state == ConnectionLifecycleState::Disconnected <==> state
            == ConnectionLifecycleState::Disconnected || has_ending(events),
        run(state, events).state.rank() >= state.rank(),
    decreases events.len(),
{
    if events.len() > 0 {
        let earlier = events.drop_last();
        let last = events.last();
        disconnect_is_told_once(state, earlier);
        let before = run(state, earlier);
        let signals = before.signals + told(before.state, last);
        if told(before.state, last).len() == 0 {
            assert(signals =~= before.signals);
        } else {
            assert(signals.drop_last() =~= before.signals);
            assert(signals.last() == told(before.state, last)[0]);
        }
        if has_ending(earlier) {
            let i = choose|i: int| 0 <= i < earlier.len() && ends_connection(#[trigger] earlier[i]);
            assert(ends_connection(events[i]));
        }
        if ends_connection(last) {
            assert(ends_connection(events[events.len() - 1]));
        }
        if has_ending(events) {
            let i = choose|i: int| 0 <= i < events.len() && ends_connection(#[trigger] events[i]);
            if i < events.len() - 1 {
                assert(ends_connection(earlier[i]));
            }
        }
    }
}

} // verus!
