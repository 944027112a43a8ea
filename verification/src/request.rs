//! The authenticated connection request.
//!
//! The backend takes its credentials twice: as two base64 query parameters
//! on the connection URI, and as headers of the upgrade request.

use vstd::prelude::*;
use vstd::string::StringExecFns;
use vstd::utf8::encode_utf8;
use crate::date::{date_is_sized, date_of, signing_date};
use crate::encoding::{base64_text, encode, is_base64_text, BASE64_INPUT_LIMIT};
use crate::endpoint::{is_well_formed, lookup_host, named_host, HostLookup};
use crate::error::{ConfigError, Endpoint};
use crate::json::{quote_str, string_literal};
use crate::query::{lacks, lacks_add, parameter, parameters, position, position_after, position_in_range, query_of, query_parameters};

verus! {

/// The signed header that rides in the connection URI.
#[derive(Clone, Debug, PartialEq, Eq)]
pub struct WebsocketHeaders {
    /// `Bearer ` and the token.
    pub authorization: String,
    /// The host of the API endpoint.
    pub host: String,
    /// The time of signing: UTC, in the form `YYYYMMDDTHHMMSSZ`.
    pub date: String,
}

/// What a connection is opened with.
#[derive(Clone, Debug, PartialEq, Eq)]
pub struct WebsocketRequest {
    /// The realtime endpoint with the two query parameters.
    pub uri: String,
    /// The host of the realtime endpoint.
    pub host: String,
    /// The bearer token.
    pub token: String,
}

/// A request as a mathematical value.
pub struct RequestView {
    pub uri: Seq<char>,
    pub host: Seq<char>,
    pub token: Seq<char>,
}

impl View for WebsocketRequest {
    type V = RequestView;

    open spec fn view(&self) -> RequestView {
        RequestView { uri: self.uri@, host: self.host@, token: self.token@ }
    }
}

/// The upgrade request: a `GET` on the URI with these headers, in order.
#[derive(Clone, Debug, PartialEq, Eq)]
pub struct ClientRequest {
    pub uri: String,
    pub headers: Vec<(String, String)>,
}

/// An upgrade request as a mathematical value.
pub struct ClientRequestView {
    pub uri: Seq<char>,
    pub headers: Seq<(Seq<char>, Seq<char>)>,
}

impl View for ClientRequest {
    type V = ClientRequestView;

    open spec fn view(&self) -> ClientRequestView {
        ClientRequestView {
            uri: self.uri@,
            headers: self.headers@.map_values(|header: (String, String)| (header.0@, header.1@)),
        }
    }
}

/// The value of the `Authorization` header for a token.
pub open spec fn bearer(token: Seq<char>) -> Seq<char> {
    "Bearer "@ + token
}

/// The signed header as JSON.
pub open spec fn header_json(authorization: Seq<char>, host: Seq<char>, date: Seq<char>) -> Seq<
    char,
> {
    "{\"authorization\":"@ + string_literal(authorization) + ",\"host\":"@ + string_literal(host)
        + ",\"x-amz-date\":"@ + string_literal(date) + "}"@
}

/// An endpoint followed by the query parameters `header` and `payload`.
pub open spec fn with_credentials(endpoint: Seq<char>, header: Seq<char>, payload: Seq<char>) -> Seq<
    char,
> {
    endpoint + "?header="@ + header + "&payload="@ + payload
}

/// The connection URI: the endpoint, then the signed header and an empty
/// JSON object, both in base64, as the query parameters `header` and
/// `payload`.
pub open spec fn connection_uri(endpoint: Seq<char>, header: Seq<char>) -> Seq<char> {
    with_credentials(endpoint, base64_text(header), base64_text("{}"@))
}

/// The two parameters that the query of a connection URI holds.
pub open spec fn credentials(header: Seq<char>, payload: Seq<char>) -> Seq<(Seq<char>, Seq<char>)> {
    seq![("header"@, header), ("payload"@, payload)]
}

/// The signed header for a token, an API endpoint with a host, and a date.
pub open spec fn signed_header(token: Seq<char>, api_endpoint: Seq<char>, date: Seq<char>) -> Seq<
    char,
> {
    header_json(bearer(token), named_host(api_endpoint).unwrap(), date)
}

/// The request for a token, the two endpoints and the date of signing, or
/// why there is none.
pub open spec fn connection_request(
    token: Seq<char>,
    realtime_endpoint: Seq<char>,
    api_endpoint: Seq<char>,
    date: Seq<char>,
) -> Result<RequestView, ConfigError> {
    if !is_well_formed(api_endpoint) {
        Err(ConfigError::Malformed(Endpoint::Api))
    } else if !is_well_formed(realtime_endpoint) {
        Err(ConfigError::Malformed(Endpoint::Realtime))
    } else if named_host(api_endpoint) is None {
        Err(ConfigError::MissingHost(Endpoint::Api))
    } else if named_host(realtime_endpoint) is None {
        Err(ConfigError::MissingHost(Endpoint::Realtime))
    } else if encode_utf8(signed_header(token, api_endpoint, date)).len() > BASE64_INPUT_LIMIT {
        Err(ConfigError::TooLarge)
    } else {
        Ok(
            RequestView {
                uri: connection_uri(
                    realtime_endpoint,
                    signed_header(token, api_endpoint, date),
                ),
                host: named_host(realtime_endpoint).unwrap(),
                token,
            },
        )
    }
}

/// Whether a request can be built for these inputs: both endpoints are
/// well-formed and name a host, and the signed header is short enough to be
/// encoded.
pub open spec fn can_be_built(
    token: Seq<char>,
    realtime_endpoint: Seq<char>,
    api_endpoint: Seq<char>,
    date: Seq<char>,
) -> bool {
    &&& is_well_formed(api_endpoint)
    &&& is_well_formed(realtime_endpoint)
    &&& named_host(api_endpoint) is Some
    &&& named_host(realtime_endpoint) is Some
    &&& encode_utf8(signed_header(token, api_endpoint, date)).len() <= BASE64_INPUT_LIMIT
}

/// Whether `outcome` is what building the request for these inputs gives,
/// with what that says of the connection URI. A request is built exactly
/// where one can be. The two values in its URI are base64 text and not
/// empty. As long as the realtime endpoint brings no query or fragment of
/// its own, the query of the URI holds exactly one parameter `header` and
/// one parameter `payload`, the first of them the signed header with its
/// members `authorization`, `host` and `x-amz-date`.
pub open spec fn signs(
    outcome: Result<RequestView, ConfigError>,
    token: Seq<char>,
    realtime_endpoint: Seq<char>,
    api_endpoint: Seq<char>,
    date: Seq<char>,
) -> bool {
    let header = base64_text(signed_header(token, api_endpoint, date));
    let payload = base64_text("{}"@);
    &&& outcome == connection_request(token, realtime_endpoint, api_endpoint, date)
    &&& outcome is Ok <==> can_be_built(token, realtime_endpoint, api_endpoint, date)
    &&& outcome matches Ok(request) ==> {
        &&& request.uri == with_credentials(realtime_endpoint, header, payload)
        &&& is_base64_text(header)
        &&& is_base64_text(payload)
        &&& header.len() >= 4
        &&& payload.len() == 4
        &&& lacks(realtime_endpoint, '?') && lacks(realtime_endpoint, '#') ==> query_parameters(
            request.uri,
        ) == credentials(header, payload)
    }
}

/// The request for a token, the two endpoints and the time of signing, or
/// why there is none: a time that no date can be written for, or what keeps
/// the request for that date from being built.
pub open spec fn connection_request_at(
    token: Seq<char>,
    realtime_endpoint: Seq<char>,
    api_endpoint: Seq<char>,
    unix_seconds: int,
) -> Result<RequestView, ConfigError> {
    match signing_date(unix_seconds) {
        Some(date) => connection_request(token, realtime_endpoint, api_endpoint, date),
        None => Err(ConfigError::DateOutOfRange),
    }
}

/// Whether `outcome` is what building the request at a time gives, with what
/// that says of the date and of the connection URI.
///
/// A time from 1970 to the end of 9999 has a date, of the form
/// `YYYYMMDDTHHMMSSZ`, so that no request fails for its date then. Where a
/// date can be written, the outcome is the one that [`signs`] describes for
/// that date; where none can, the outcome is that error.
pub open spec fn signs_at(
    outcome: Result<RequestView, ConfigError>,
    token: Seq<char>,
    realtime_endpoint: Seq<char>,
    api_endpoint: Seq<char>,
    unix_seconds: int,
) -> bool {
    &&& outcome == connection_request_at(token, realtime_endpoint, api_endpoint, unix_seconds)
    &&& date_is_sized(unix_seconds)
    &&& signing_date(unix_seconds) is None ==> outcome == Err::<RequestView, ConfigError>(
        ConfigError::DateOutOfRange,
    )
    &&& signing_date(unix_seconds) matches Some(date) ==> signs(
        outcome,
        token,
        realtime_endpoint,
        api_endpoint,
        date,
    )
}

/// Whether `request` is the upgrade request for a connection request and
/// some handshake key.
pub open spec fn upgrades(request: ClientRequestView, from: RequestView) -> bool {
    exists|key: Seq<char>| is_handshake_key(key) && request == #[trigger] upgrade_request(from, key)
}

/// A request or an error, as a mathematical value.
pub open spec fn request_result(outcome: Result<WebsocketRequest, ConfigError>) -> Result<
    RequestView,
    ConfigError,
> {
    match outcome {
        Ok(request) => Ok(request@),
        Err(error) => Err(error),
    }
}

/// The headers of the upgrade request, in the order in which they are sent.
pub open spec fn upgrade_headers(host: Seq<char>, token: Seq<char>, key: Seq<char>) -> Seq<
    (Seq<char>, Seq<char>),
> {
    seq![
        ("Host"@, host),
        ("Upgrade"@, "websocket"@),
        ("Connection"@, "Upgrade"@),
        ("Sec-WebSocket-Version"@, "13"@),
        ("Sec-WebSocket-Protocol"@, "graphql-ws"@),
        ("Authorization"@, bearer(token)),
        ("Sec-WebSocket-Extensions"@, "permessage-deflate; client_max_window_bits"@),
        ("Sec-WebSocket-Key"@, key),
    ]
}

/// The upgrade request for a connection request and a handshake key.
pub open spec fn upgrade_request(request: RequestView, key: Seq<char>) -> ClientRequestView {
    ClientRequestView { uri: request.uri, headers: upgrade_headers(request.host, request.token, key) }
}

/// Whether `key` has the shape of a handshake key: sixteen bytes in base64,
/// which is twenty-two characters and two padding signs.
pub open spec fn is_handshake_key(key: Seq<char>) -> bool {
    &&& key.len() == 24
    &&& is_base64_text(key)
    &&& key[22] == '='
    &&& key[23] == '='
}

/// Calls `tungstenite::handshake::client::generate_key`.
///
/// Trusted: the key is random; whatever it is, it is the padded base64 form
/// of sixteen bytes, which is twenty-four characters long and ends in two
/// padding signs.
#[verifier::external_body]
fn generate_key() -> (r: String)
    ensures
        is_handshake_key(r@),
{
    tungstenite::handshake::client::generate_key()
}

fn pair(name: &str, value: String) -> (r: (String, String))
    ensures
        r.0@ == name@,
        r.1@ == value@,
{
    (String::from_str(name), value)
}

impl WebsocketHeaders {
    /// Writes the header as a JSON object with the members `authorization`,
    /// `host` and `x-amz-date`.
    pub fn to_json(&self) -> (r: String)
        ensures
            r@ == header_json(self.authorization@, self.host@, self.date@),
    {
        let mut text = String::from_str("{\"authorization\":");
        let authorization = quote_str(self.authorization.as_str());
        text.append(authorization.as_str());
        text.append(",\"host\":");
        let host = quote_str(self.host.as_str());
        text.append(host.as_str());
        text.append(",\"x-amz-date\":");
        let date = quote_str(self.date.as_str());
        text.append(date.as_str());
        text.append("}");
        text
    }
}

impl WebsocketRequest {
    /// Builds the request for a bearer token, signed at the time `now`,
    /// given in seconds since the start of 1970.
    ///
    /// Fails where no date can be written for the time, which is not so for
    /// any time from 1970 to the end of 9999, and where
    /// [`WebsocketRequest::from_token_at`] fails for the date of the time.
    pub fn from_token_for_appsync(
        token: String,
        realtime_endpoint: &str,
        api_endpoint: &str,
        now: i64,
    ) -> (r: Result<WebsocketRequest, ConfigError>)
        ensures
            signs_at(request_result(r), token@, realtime_endpoint@, api_endpoint@, now as int),
    {
        match date_of(now) {
            Some(date) => WebsocketRequest::from_token_at(
                token,
                realtime_endpoint,
                api_endpoint,
                date.as_str(),
            ),
            None => Err(ConfigError::DateOutOfRange),
        }
    }

    /// Builds the request for a bearer token, signed at `date`.
    ///
    /// Fails where an endpoint is no URI or names no host, and where the
    /// signed header is too long to encode.
    pub fn from_token_at(
        token: String,
        realtime_endpoint: &str,
        api_endpoint: &str,
        date: &str,
    ) -> (r: Result<WebsocketRequest, ConfigError>)
        ensures
            signs(request_result(r), token@, realtime_endpoint@, api_endpoint@, date@),
    {
        let api = lookup_host(api_endpoint);
        let realtime = lookup_host(realtime_endpoint);
        let api_host = match api {
            HostLookup::Malformed => { return Err(ConfigError::Malformed(Endpoint::Api)); },
            HostLookup::Absent => {
                return match realtime {
                    HostLookup::Malformed => Err(ConfigError::Malformed(Endpoint::Realtime)),
                    _ => Err(ConfigError::MissingHost(Endpoint::Api)),
                };
            },
            HostLookup::Named(host) => host,
        };
        let realtime_host = match realtime {
            HostLookup::Malformed => { return Err(ConfigError::Malformed(Endpoint::Realtime)); },
            HostLookup::Absent => { return Err(ConfigError::MissingHost(Endpoint::Realtime)); },
            HostLookup::Named(host) => host,
        };
        let mut authorization = String::from_str("Bearer ");
        authorization.append(token.as_str());
        let headers = WebsocketHeaders {
            authorization,
            host: api_host,
            date: String::from_str(date),
        };
        let json_header = headers.to_json();
        let header = match encode(json_header.as_str()) {
            Some(encoded) => encoded,
            None => { return Err(ConfigError::TooLarge); },
        };
        let payload = match encode("{}") {
            Some(encoded) => encoded,
            None => {
                proof {
                    empty_object_is_short();
                }
                return Err(ConfigError::TooLarge);
            },
        };
        let mut uri = String::from_str(realtime_endpoint);
        uri.append("?header=");
        uri.append(header.as_str());
        uri.append("&payload=");
        uri.append(payload.as_str());
        proof {
            empty_object_is_short();
            header_is_not_empty(bearer(token@), headers.host@, date@);
            if lacks(realtime_endpoint@, '?') && lacks(realtime_endpoint@, '#') {
                query_holds_header_and_payload(realtime_endpoint@, header@, payload@);
            }
        }
        Ok(WebsocketRequest { uri, host: realtime_host, token })
    }

    /// Turns the request into the upgrade request, with a fresh handshake
    /// key.
    pub fn into_client_request(self) -> (r: ClientRequest)
        ensures
            upgrades(r@, self@),
    {
        let key = generate_key();
        self.into_client_request_with_key(key)
    }

    /// Turns the request into the upgrade request that carries `key` as its
    /// handshake key.
    pub fn into_client_request_with_key(self, key: String) -> (r: ClientRequest)
        ensures
            r@ == upgrade_request(self@, key@),
    {
        let mut authorization = String::from_str("Bearer ");
        authorization.append(self.token.as_str());
        let mut headers: Vec<(String, String)> = Vec::new();
        headers.push(pair("Host", self.host));
        headers.push(pair("Upgrade", String::from_str("websocket")));
        headers.push(pair("Connection", String::from_str("Upgrade")));
        headers.push(pair("Sec-WebSocket-Version", String::from_str("13")));
        headers.push(pair("Sec-WebSocket-Protocol", String::from_str("graphql-ws")));
        headers.push(pair("Authorization", authorization));
        headers.push(
            pair(
                "Sec-WebSocket-Extensions",
                String::from_str("permessage-deflate; client_max_window_bits"),
            ),
        );
        headers.push(pair("Sec-WebSocket-Key", key));
        let request = ClientRequest { uri: self.uri, headers };
        assert(request@.headers =~= upgrade_headers(self.host@, self.token@, key@));
        request
    }
}

proof fn base64_lacks(text: Seq<char>, c: char)
    requires
        is_base64_text(text),
        c == '?' || c == '#' || c == '&',
    ensures
        lacks(text, c),
{
    assert forall|i: int| 0 <= i < text.len() implies #[trigger] text[i] != c by {
        assert(crate::encoding::is_base64_char(text[i]));
    }
}

/// The query of an endpoint with credentials holds exactly the two
/// parameters `header` and `payload`, in this order and with the values they
/// were given, as long as the endpoint brings no query or fragment of its
/// own.
pub proof fn query_holds_header_and_payload(
    endpoint: Seq<char>,
    header: Seq<char>,
    payload: Seq<char>,
)
    requires
        lacks(endpoint, '?'),
        lacks(endpoint, '#'),
        is_base64_text(header),
        is_base64_text(payload),
    ensures
        query_parameters(with_credentials(endpoint, header, payload)) == credentials(
            header,
            payload,
        ),
{
    reveal_strlit("?header=");
    reveal_strlit("&payload=");
    reveal_strlit("header");
    reveal_strlit("payload");
    let uri = with_credentials(endpoint, header, payload);
    let first = "?header="@;
    let second = "&payload="@;
    let tail = first + header + second + payload;
    assert(uri =~= endpoint + tail);
    // The query starts after the endpoint and runs to the end.
    position_after(endpoint, tail, '?');
    assert(tail[0] == '?');
    assert(position(tail, '?') == 0);
    base64_lacks(header, '#');
    base64_lacks(payload, '#');
    assert(lacks(first, '#'));
    assert(lacks(second, '#'));
    lacks_add(endpoint, first, '#');
    lacks_add(endpoint + first, header, '#');
    lacks_add(endpoint + first + header, second, '#');
    lacks_add(endpoint + first + header + second, payload, '#');
    position_in_range(uri, '#');
    let name_one = "header"@;
    let name_two = "payload"@;
    let item_one = name_one + seq!['='] + header;
    let item_two = name_two + seq!['='] + payload;
    let query = item_one + seq!['&'] + item_two;
    assert(query_of(uri) =~= query);
    // The query parts at its one ampersand.
    base64_lacks(header, '&');
    base64_lacks(payload, '&');
    assert(lacks(name_one + seq!['='], '&'));
    assert(lacks(name_two + seq!['='], '&'));
    lacks_add(name_one + seq!['='], header, '&');
    lacks_add(name_two + seq!['='], payload, '&');
    assert(query =~= item_one + (seq!['&'] + item_two));
    position_after(item_one, seq!['&'] + item_two, '&');
    assert((seq!['&'] + item_two)[0] == '&');
    assert(position(seq!['&'] + item_two, '&') == 0);
    assert(query.subrange(0, item_one.len() as int) =~= item_one);
    assert(query.subrange(item_one.len() as int + 1, query.len() as int) =~= item_two);
    position_in_range(item_two, '&');
    assert(parameters(item_two) =~= seq![parameter(item_two)]);
    assert(parameters(query) =~= seq![parameter(item_one)] + parameters(item_two));
    // Each item parts at its first equals sign.
    assert(lacks(name_one, '='));
    assert(lacks(name_two, '='));
    assert(item_one =~= name_one + (seq!['='] + header));
    assert(item_two =~= name_two + (seq!['='] + payload));
    position_after(name_one, seq!['='] + header, '=');
    position_after(name_two, seq!['='] + payload, '=');
    assert((seq!['='] + header)[0] == '=');
    assert((seq!['='] + payload)[0] == '=');
    assert(item_one.subrange(0, name_one.len() as int) =~= name_one);
    assert(item_one.subrange(name_one.len() as int + 1, item_one.len() as int) =~= header);
    assert(item_two.subrange(0, name_two.len() as int) =~= name_two);
    assert(item_two.subrange(name_two.len() as int + 1, item_two.len() as int) =~= payload);
    assert(parameter(item_one) == (name_one, header));
    assert(parameter(item_two) == (name_two, payload));
    assert(parameters(query) =~= credentials(header, payload));
}

/// The signed header has at least one byte.
proof fn header_is_not_empty(authorization: Seq<char>, host: Seq<char>, date: Seq<char>)
    ensures
        encode_utf8(header_json(authorization, host, date)).len() >= 1,
{
    reveal_strlit("{\"authorization\":");
    let header = header_json(authorization, host, date);
    assert(header.len() >= 1);
    assert(vstd::utf8::encode_scalar(header[0] as u32).len() >= 1);
}

/// The empty JSON object is two bytes long.
proof fn empty_object_is_short()
    ensures
        encode_utf8("{}"@).len() == 2,
{
    reveal_strlit("{}");
    vstd::utf8::is_ascii_chars_encode_utf8("{}"@);
}

} // verus!
