//! The failures that end a connection attempt.

use vstd::prelude::*;

verus! {

/// One of the two endpoints that a connection is configured with.
#[derive(Clone, Copy, Debug, PartialEq, Eq, Structural)]
pub enum Endpoint {
    /// The endpoint that the realtime channel is opened to.
    Realtime,
    /// The GraphQL endpoint whose host signs the request.
    Api,
}

/// Why no connection request can be built from the configuration.
#[derive(Clone, Copy, Debug, PartialEq, Eq, Structural)]
pub enum ConfigError {
    /// The endpoint is no well-formed URL.
    Malformed(Endpoint),
    /// The endpoint names no host.
    MissingHost(Endpoint),
    /// The time of signing lies outside the years that a date can be
    /// written for.
    DateOutOfRange,
    /// The signed header is too long to be encoded on this machine.
    TooLarge,
}

/// Why a connection attempt ended without a channel.
#[derive(Clone, Copy, Debug, PartialEq, Eq, Structural)]
pub enum ConnectError {
    /// The configuration yields no request.
    Config(ConfigError),
    /// The endpoint's address cannot be resolved.
    Resolution,
    /// The TCP connection or its I/O failed.
    Transport,
    /// The secure channel was refused: certificate or protocol negotiation.
    SecureChannel,
    /// The server refused the protocol upgrade.
    Upgrade,
}

} // verus!
