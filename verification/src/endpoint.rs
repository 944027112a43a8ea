//! What the client reads from its endpoint URLs.

use vstd::prelude::*;
use crate::error::{ConfigError, Endpoint};

verus! {

/// The error of `http::Uri`'s parser, carried through unread.
#[verifier::external_type_specification]
#[verifier::external_body]
pub struct ExInvalidUri(tungstenite::http::uri::InvalidUri);

/// The error of `url::Url::parse`, carried through unread.
#[verifier::external_type_specification]
#[verifier::external_body]
pub struct ExUrlParseError(url::ParseError);

/// What `http::Uri` makes of a text: `None` where it is no URI, else the
/// host of its authority, if it has one.
pub uninterp spec fn uri_host(uri: Seq<char>) -> Option<Option<Seq<char>>>;

/// What `url::Url` makes of a text: `None` where it is no absolute URL, else
/// its host where that is a domain name.
pub uninterp spec fn url_domain(url: Seq<char>) -> Option<Option<Seq<char>>>;

/// The outcome of a lookup in a parsed URL, as a mathematical value. An error
/// of the parser is `None`.
pub open spec fn lookup_view<E>(outcome: Result<Option<String>, E>) -> Option<Option<Seq<char>>> {
    match outcome {
        Ok(Some(found)) => Some(Some(found@)),
        Ok(None) => Some(None),
        Err(_) => None,
    }
}

/// Parses a text as an `http::Uri` and reads `Uri::host`.
///
/// Trusted: the outcome depends on the text alone and is named [`uri_host`].
#[verifier::external_body]
fn parse_uri_host(uri: &str) -> (r: Result<Option<String>, tungstenite::http::uri::InvalidUri>)
    ensures
        lookup_view(r) == uri_host(uri@),
{
    let parsed = uri.parse::<tungstenite::http::Uri>()?;
    Ok(parsed.host().map(String::from))
}

/// Parses with `url::Url::parse` and reads `Url::domain`.
///
/// Trusted: the outcome depends on the text alone and is named
/// [`url_domain`].
#[verifier::external_body]
fn parse_url_domain(url: &str) -> (r: Result<Option<String>, url::ParseError>)
    ensures
        lookup_view(r) == url_domain(url@),
{
    let parsed = url::Url::parse(url)?;
    Ok(parsed.domain().map(String::from))
}

/// Whether an endpoint is a well-formed URI.
pub open spec fn is_well_formed(endpoint: Seq<char>) -> bool {
    uri_host(endpoint) is Some
}

/// The host that an endpoint names: the host of its authority, unless that
/// is absent or empty.
pub open spec fn named_host(endpoint: Seq<char>) -> Option<Seq<char>> {
    match uri_host(endpoint) {
        Some(Some(host)) => if host.len() > 0 {
            Some(host)
        } else {
            None
        },
        _ => None,
    }
}

/// The name that the secure channel is opened for: the domain of the
/// endpoint, and `localhost` where its host is an address or absent.
pub open spec fn channel_domain(endpoint: Seq<char>) -> Result<Seq<char>, ConfigError> {
    match url_domain(endpoint) {
        Some(Some(domain)) => Ok(domain),
        Some(None) => Ok("localhost"@),
        None => Err(ConfigError::Malformed(Endpoint::Realtime)),
    }
}

/// A text or an error, as a mathematical value.
pub open spec fn text_result<E>(outcome: Result<String, E>) -> Result<Seq<char>, E> {
    match outcome {
        Ok(text) => Ok(text@),
        Err(error) => Err(error),
    }
}

/// What [`lookup_host`] found for an endpoint.
#[derive(Clone, Debug, PartialEq, Eq)]
pub enum HostLookup {
    /// The endpoint is no URI.
    Malformed,
    /// The endpoint is a URI and names no host.
    Absent,
    /// The endpoint names this host.
    Named(String),
}

impl HostLookup {
    /// Whether this is what the parser makes of `endpoint`.
    pub open spec fn describes(self, endpoint: Seq<char>) -> bool {
        match self {
            HostLookup::Malformed => !is_well_formed(endpoint),
            HostLookup::Absent => is_well_formed(endpoint) && named_host(endpoint) is None,
            HostLookup::Named(host) => is_well_formed(endpoint) && named_host(endpoint) == Some(
                host@,
            ),
        }
    }
}

/// Looks up the host of an endpoint.
pub fn lookup_host(endpoint: &str) -> (r: HostLookup)
    ensures
        r.describes(endpoint@),
{
    match parse_uri_host(endpoint) {
        Ok(Some(host)) => {
            if host.as_str().is_empty() {
                HostLookup::Absent
            } else {
                HostLookup::Named(host)
            }
        },
        Ok(None) => HostLookup::Absent,
        Err(_) => HostLookup::Malformed,
    }
}

/// The name to open the secure channel for.
pub fn secure_channel_domain(endpoint: &str) -> (r: Result<String, ConfigError>)
    ensures
        text_result(r) == channel_domain(endpoint@),
{
    match parse_url_domain(endpoint) {
        Ok(Some(domain)) => Ok(domain),
        Ok(None) => Ok("localhost".to_owned()),
        Err(_) => Err(ConfigError::Malformed(Endpoint::Realtime)),
    }
}

} // verus!
