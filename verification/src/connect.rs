//! One connection attempt, from the host's request to the hand-over of the
//! channel.
//!
//! An attempt is the work of one background task: build the request,
//! establish the secure channel, upgrade it to a message channel. The task
//! does the I/O; [`ConnectAttempt`] says what comes next and ends the attempt
//! at the first failure. Nothing is retried.

use vstd::prelude::*;
use crate::date::{date_is_sized, date_of, signing_date};
use crate::endpoint::{channel_domain, secure_channel_domain};
use crate::error::{ConfigError, ConnectError};
use crate::request::{connection_request, WebsocketRequest};
use crate::signal::{signal_view, AppSignal, SignalView};

verus! {

/// Where a connection attempt stands. `S` is the secure stream and `W` the
/// message channel.
#[derive(Debug)]
pub enum ConnectAttempt<S, W> {
    /// The secure channel is to be established: to `endpoint`, for the name
    /// `domain`.
    Secure { request: WebsocketRequest, endpoint: String, domain: String },
    /// The protocol upgrade is to be made over `stream`, with `request`.
    Upgrade { request: WebsocketRequest, stream: S },
    /// The channel is ready for hand-over.
    Established(W),
    /// The attempt is over without a channel.
    Failed(ConnectError),
}

/// What the primary loop does with a handshake task that it polled.
#[derive(Debug)]
pub struct Resolution<W> {
    /// The channel to register, where the attempt gave one.
    pub channel: Option<W>,
    /// What the host is told.
    pub signal: Option<AppSignal>,
    /// Whether the task is done and to be dropped.
    pub finished: bool,
}

/// Whether `attempt` is the start of an attempt for a token, the two
/// endpoints and the date of signing.
pub open spec fn begins<S, W>(
    attempt: ConnectAttempt<S, W>,
    token: Seq<char>,
    realtime_endpoint: Seq<char>,
    api_endpoint: Seq<char>,
    date: Seq<char>,
) -> bool {
    match connection_request(token, realtime_endpoint, api_endpoint, date) {
        Err(error) => attempt == ConnectAttempt::<S, W>::Failed(ConnectError::Config(error)),
        Ok(wanted) => match channel_domain(realtime_endpoint) {
            Err(error) => attempt == ConnectAttempt::<S, W>::Failed(ConnectError::Config(error)),
            Ok(name) => {
                &&& attempt matches ConnectAttempt::Secure { request, endpoint, domain }
                &&& request@ == wanted
                &&& endpoint@ == realtime_endpoint
                &&& domain@ == name
            },
        },
    }
}

/// Whether `attempt` is the start of an attempt for a token and the two
/// endpoints, signed at a time: failed from the start where no date can be
/// written for the time, else the start of the attempt for the date of the
/// time. A time from 1970 to the end of 9999 has a date.
pub open spec fn begins_at<S, W>(
    attempt: ConnectAttempt<S, W>,
    token: Seq<char>,
    realtime_endpoint: Seq<char>,
    api_endpoint: Seq<char>,
    unix_seconds: int,
) -> bool {
    &&& date_is_sized(unix_seconds)
    &&& match signing_date(unix_seconds) {
        Some(date) => begins(attempt, token, realtime_endpoint, api_endpoint, date),
        None => attempt == ConnectAttempt::<S, W>::Failed(
            ConnectError::Config(ConfigError::DateOutOfRange),
        ),
    }
}

impl<S, W> ConnectAttempt<S, W> {
    /// An attempt is over once it has a channel or has failed.
    pub open spec fn is_over(self) -> bool {
        self is Established || self is Failed
    }

    /// The attempt after the secure channel was reported established or
    /// failed: the upgrade is next, with the same request, or the attempt is
    /// over.
    pub open spec fn after_secure(request: WebsocketRequest, outcome: Result<S, ConnectError>) -> Self {
        match outcome {
            Ok(stream) => ConnectAttempt::Upgrade { request, stream },
            Err(error) => ConnectAttempt::Failed(error),
        }
    }

    /// The attempt after the upgrade was reported done or failed.
    pub open spec fn after_upgrade(outcome: Result<W, ConnectError>) -> Self {
        match outcome {
            Ok(channel) => ConnectAttempt::Established(channel),
            Err(error) => ConnectAttempt::Failed(error),
        }
    }

    /// Starts an attempt for a bearer token, signed at the time `now`, given
    /// in seconds since the start of 1970.
    pub fn begin(token: String, realtime_endpoint: &str, api_endpoint: &str, now: i64) -> (r: Self)
        ensures
            begins_at(r, token@, realtime_endpoint@, api_endpoint@, now as int),
    {
        match date_of(now) {
            Some(date) => Self::begin_at(token, realtime_endpoint, api_endpoint, date.as_str()),
            None => ConnectAttempt::Failed(ConnectError::Config(ConfigError::DateOutOfRange)),
        }
    }

    /// Starts an attempt for a bearer token, signed at `date`.
    ///
    /// The attempt has failed from the start where the configuration yields
    /// no request or the realtime endpoint is no absolute URL.
    pub fn begin_at(token: String, realtime_endpoint: &str, api_endpoint: &str, date: &str) -> (r:
        Self)
        ensures
            begins(r, token@, realtime_endpoint@, api_endpoint@, date@),
    {
        match WebsocketRequest::from_token_at(token, realtime_endpoint, api_endpoint, date) {
            Ok(request) => Self::open(request, realtime_endpoint),
            Err(error) => ConnectAttempt::Failed(ConnectError::Config(error)),
        }
    }

    /// The first stage of an attempt that has its request.
    fn open(request: WebsocketRequest, realtime_endpoint: &str) -> (r: Self)
        ensures
            match channel_domain(realtime_endpoint@) {
                Err(error) => r == ConnectAttempt::<S, W>::Failed(ConnectError::Config(error)),
                Ok(name) => {
                    &&& r matches ConnectAttempt::Secure { request: kept, endpoint, domain }
                    &&& kept == request
                    &&& endpoint@ == realtime_endpoint@
                    &&& domain@ == name
                },
            },
    {
        match secure_channel_domain(realtime_endpoint) {
            Ok(domain) => ConnectAttempt::Secure {
                request,
                endpoint: realtime_endpoint.to_owned(),
                domain,
            },
            Err(error) => ConnectAttempt::Failed(ConnectError::Config(error)),
        }
    }

    /// The secure channel for `request` was established, or failed.
    pub fn secured(request: WebsocketRequest, outcome: Result<S, ConnectError>) -> (r: Self)
        ensures
            r == Self::after_secure(request, outcome),
    {
        match outcome {
            Ok(stream) => ConnectAttempt::Upgrade { request, stream },
            Err(error) => ConnectAttempt::Failed(error),
        }
    }

    /// The upgrade was made, or failed.
    pub fn upgraded(outcome: Result<W, ConnectError>) -> (r: Self)
        ensures
            r == Self::after_upgrade(outcome),
    {
        match outcome {
            Ok(channel) => ConnectAttempt::Established(channel),
            Err(error) => ConnectAttempt::Failed(error),
        }
    }
}

/// What the host's signal starts: an attempt for the token of a connect
/// request, nothing for any other signal.
pub fn handshake<S, W>(
    signal: &AppSignal,
    realtime_endpoint: &str,
    api_endpoint: &str,
    now: i64,
) -> (r: Option<ConnectAttempt<S, W>>)
    ensures
        match (signal@, r) {
            (SignalView::ConnectWebsocket(token), Some(attempt)) => begins_at(
                attempt,
                token,
                realtime_endpoint@,
                api_endpoint@,
                now as int,
            ),
            (SignalView::ConnectWebsocket(_), None) => false,
            (_, started) => started is None,
        },
{
    match signal {
        AppSignal::ConnectWebsocket(token) => Some(
            ConnectAttempt::begin(token.clone(), realtime_endpoint, api_endpoint, now),
        ),
        _ => None,
    }
}

/// What a polled handshake task resolves to.
pub open spec fn resolved<W>(polled: Option<Result<W, ConnectError>>) -> (
    Option<W>,
    Option<SignalView>,
    bool,
) {
    match polled {
        None => (None, None, false),
        Some(Ok(channel)) => (Some(channel), Some(SignalView::WebsocketConnected), true),
        Some(Err(error)) => (None, Some(SignalView::WebsocketFailed(error)), true),
    }
}

/// The primary loop polled a handshake task once.
///
/// A task that is still running is left alone. A finished one is dropped and
/// the host is told once: that the channel is connected, which is then
/// handed over, or why the attempt failed.
pub fn handle_handshake_task<W>(polled: Option<Result<W, ConnectError>>) -> (r: Resolution<W>)
    ensures
        r.channel == resolved(polled).0,
        signal_view(r.signal) == resolved(polled).1,
        r.finished == resolved(polled).2,
{
    match polled {
        None => Resolution { channel: None, signal: None, finished: false },
        Some(Ok(channel)) => Resolution {
            channel: Some(channel),
            signal: Some(AppSignal::WebsocketConnected),
            finished: true,
        },
        Some(Err(error)) => Resolution {
            channel: None,
            signal: Some(AppSignal::WebsocketFailed(error)),
            finished: true,
        },
    }
}

/// The channel is handed over only after the upgrade reported success: the
/// report of the secure channel never yields a channel, and the report of
/// the upgrade yields one exactly where it is a success, and then the channel
/// it reports. Every failure ends the attempt with its error.
pub proof fn channel_only_after_upgrade<S, W>(
    request: WebsocketRequest,
    secure: Result<S, ConnectError>,
    upgrade: Result<W, ConnectError>,
)
    ensures
        !(ConnectAttempt::<S, W>::after_secure(request, secure) is Established),
        ConnectAttempt::<S, W>::after_upgrade(upgrade) is Established <==> upgrade is Ok,
        upgrade is Ok ==> ConnectAttempt::<S, W>::after_upgrade(upgrade)
            == ConnectAttempt::<S, W>::Established(upgrade->Ok_0),
        secure is Err ==> ConnectAttempt::<S, W>::after_secure(request, secure)
            == ConnectAttempt::<S, W>::Failed(secure->Err_0),
        upgrade is Err ==> ConnectAttempt::<S, W>::after_upgrade(upgrade)
            == ConnectAttempt::<S, W>::Failed(upgrade->Err_0),
        ConnectAttempt::<S, W>::after_upgrade(upgrade).is_over(),
{
}

} // verus!
