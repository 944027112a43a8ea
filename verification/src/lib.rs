//! A non-blocking client for a GraphQL-over-WebSocket realtime backend.
//!
//! The crate holds the decisions of the client: how the authenticated
//! connection request is put together, how the two handshakes are resumed
//! after a "would block", and how the realtime sub-protocol reacts to frames.
//! Sockets, the readiness poller, the clock and the host's scheduler stay
//! with the caller, which performs what this crate decides on and reports
//! back what happened.
//!
//! - [`request`] builds the connection URI and the upgrade request from a
//!   bearer token, the two endpoints and the time of signing.
//! - [`handshake`] drives one resumable handshake; [`connect`] strings the
//!   secure channel and the protocol upgrade together into one attempt.
//! - [`protocol`] is the state machine of an established connection, over
//!   the messages of [`message`] and the signals of [`signal`].
//! - [`json`], [`encoding`], [`endpoint`], [`date`] and [`text`] are what
//!   these are written with, and [`query`] holds the terms in which the
//!   connection URI is described.

pub mod appsync;
pub mod connect;
pub mod date;
pub mod encoding;
pub mod endpoint;
pub mod error;
pub mod handshake;
pub mod json;
pub mod message;
pub mod protocol;
pub mod query;
pub mod request;
pub mod signal;
pub mod text;
