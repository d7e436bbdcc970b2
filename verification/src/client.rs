//! The pure half of the status client: the connection descriptor is
//! parsed into a transport endpoint, the request path and the
//! authorization header are built, and a response is classified.
//! The sockets themselves are driven outside the library, which
//! hands the raw outcome back to these functions.

use base64::Engine;
use vstd::prelude::*;
use vstd::string::StringExecFns;
use vstd::string::StringSliceAdditionalSpecFns;
use vstd::string::StrSliceExecFns;
use vstd::utf8::encode_utf8;
use crate::strutil::{dec_str, push_dec_u32, split_on, split_seq};

verus! {

/// A failure of the status client, in the four stated kinds:
/// transport trouble, a failed request, an undecodable body, or a
/// non-successful answer of the daemon's API.
#[derive(Clone, Debug, PartialEq)]
pub enum TailscaleError {
    SocketConnection(String),
    HttpRequest(String),
    JsonParse(String),
    ApiError(String),
}

/// The mathematical value of a client failure.
pub enum TailscaleErrorGhost {
    SocketConnection(Seq<char>),
    HttpRequest(Seq<char>),
    JsonParse(Seq<char>),
    ApiError(Seq<char>),
}

impl View for TailscaleError {
    type V = TailscaleErrorGhost;

    open spec fn view(&self) -> TailscaleErrorGhost {
        match self {
            TailscaleError::SocketConnection(m) => TailscaleErrorGhost::SocketConnection(m@),
            TailscaleError::HttpRequest(m) => TailscaleErrorGhost::HttpRequest(m@),
            TailscaleError::JsonParse(m) => TailscaleErrorGhost::JsonParse(m@),
            TailscaleError::ApiError(m) => TailscaleErrorGhost::ApiError(m@),
        }
    }
}

/// The message of a client failure, with its kind spelled out.
pub open spec fn spec_error_message(e: TailscaleErrorGhost) -> Seq<char> {
    match e {
        TailscaleErrorGhost::SocketConnection(m) => "Socket connection error: "@ + m,
        TailscaleErrorGhost::HttpRequest(m) => "HTTP request error: "@ + m,
        TailscaleErrorGhost::JsonParse(m) => "JSON parse error: "@ + m,
        TailscaleErrorGhost::ApiError(m) => "Tailscale API error: "@ + m,
    }
}

impl TailscaleError {
    /// The failure, written out for a reader.
    pub fn message(&self) -> (r: String)
        ensures
            r@ == spec_error_message(self@),
    {
        match self {
            TailscaleError::SocketConnection(m) => {
                let mut s = String::from_str("Socket connection error: ");
                s.append(m.as_str());
                s
            },
            TailscaleError::HttpRequest(m) => {
                let mut s = String::from_str("HTTP request error: ");
                s.append(m.as_str());
                s
            },
            TailscaleError::JsonParse(m) => {
                let mut s = String::from_str("JSON parse error: ");
                s.append(m.as_str());
                s
            },
            TailscaleError::ApiError(m) => {
                let mut s = String::from_str("Tailscale API error: ");
                s.append(m.as_str());
                s
            },
        }
    }
}

/// Where the daemon is reached: a filesystem socket, or a local TCP
/// endpoint with an optional credential token.
#[derive(Clone, Debug, PartialEq)]
pub enum Endpoint {
    Unix { socket_path: String },
    Tcp { base_url: String, token: Option<String> },
}

/// The mathematical value of an endpoint.
pub enum EndpointGhost {
    Unix { socket_path: Seq<char> },
    Tcp { base_url: Seq<char>, token: Option<Seq<char>> },
}

impl View for Endpoint {
    type V = EndpointGhost;

    open spec fn view(&self) -> EndpointGhost {
        match self {
            Endpoint::Unix { socket_path } => EndpointGhost::Unix { socket_path: socket_path@ },
            Endpoint::Tcp { base_url, token } => EndpointGhost::Tcp {
                base_url: base_url@,
                token: match token {
                    Some(t) => Some(t@),
                    None => None,
                },
            },
        }
    }
}

/// Whether the connection descriptor names the TCP transport.
pub open spec fn has_tcp_scheme(s: Seq<char>) -> bool {
    s.len() >= 6 && s[0] == 't' && s[1] == 'c' && s[2] == 'p' && s[3] == ':' && s[4] == '/'
        && s[5] == '/'
}

/// What a connection descriptor denotes: `tcp://host:port:token`
/// gives the TCP endpoint with its credential (further `:` segments
/// are ignored), `tcp://` with fewer than three segments gives an
/// unauthenticated TCP endpoint, and everything else is a
/// filesystem socket path.
pub open spec fn spec_parse_endpoint(s: Seq<char>) -> EndpointGhost {
    if has_tcp_scheme(s) {
        let rest = s.subrange(6, s.len() as int);
        let parts = split_seq(rest, ':');
        if parts.len() >= 3 {
            EndpointGhost::Tcp {
                base_url: "http://"@ + parts[0] + ":"@ + parts[1],
                token: Some(parts[2]),
            }
        } else {
            EndpointGhost::Tcp { base_url: "http://"@ + rest, token: None }
        }
    } else {
        EndpointGhost::Unix { socket_path: s }
    }
}

/// Parses a connection descriptor, as the client does once at
/// construction.
pub fn parse_endpoint(socket_path: &str) -> (r: Endpoint)
    ensures
        r@ == spec_parse_endpoint(socket_path@),
{
    let n = socket_path.unicode_len();
    if n >= 6 && socket_path.get_char(0) == 't' && socket_path.get_char(1) == 'c'
        && socket_path.get_char(2) == 'p' && socket_path.get_char(3) == ':'
        && socket_path.get_char(4) == '/' && socket_path.get_char(5) == '/' {
        let rest = socket_path.substring_char(6, n);
        let parts = split_on(rest, ':');
        if parts.len() >= 3 {
            let mut base_url = String::from_str("http://");
            base_url.append(parts[0].as_str());
            base_url.append(":");
            base_url.append(parts[1].as_str());
            Endpoint::Tcp { base_url, token: Some(parts[2].clone()) }
        } else {
            let mut base_url = String::from_str("http://");
            base_url.append(rest);
            Endpoint::Tcp { base_url, token: None }
        }
    } else {
        Endpoint::Unix { socket_path: String::from_str(socket_path) }
    }
}

/// The one API path the client requests, with or without peers.
pub fn status_path(include_peers: bool) -> (r: &'static str)
    ensures
        include_peers ==> r@ == "/localapi/v0/status"@,
        !include_peers ==> r@ == "/localapi/v0/status?peers=false"@,
{
    if include_peers {
        "/localapi/v0/status"
    } else {
        "/localapi/v0/status?peers=false"
    }
}

/// What the standard base64 alphabet, with padding, makes of a byte
/// string.
pub uninterp spec fn base64_std_of(bytes: Seq<u8>) -> Seq<char>;

/// Relies on base64's STANDARD engine: the encoding is a function
/// of the bytes alone, four characters for every started group of
/// three bytes. The character bound keeps the byte length (at most
/// four bytes per character) and with it the engine's output-size
/// computation away from overflow.
#[verifier::external_body]
fn base64_encode_std(s: &str) -> (r: String)
    requires
        s@.len() <= 0x1000_0000,
    ensures
        r@ == base64_std_of(s.spec_bytes()),
        r@.len() == 4 * ((s.spec_bytes().len() + 2) / 3),
{
    base64::engine::general_purpose::STANDARD.encode(s.as_bytes())
}

/// The Authorization header value carrying a token: `Basic ` and
/// the base64 form of `:token`, as HTTP basic credentials with an
/// empty user name.
pub open spec fn spec_auth_header(token: Seq<char>) -> Seq<char> {
    "Basic "@ + base64_std_of(encode_utf8(seq![':'] + token))
}

/// Builds the Authorization header value for a token. Only a token
/// of absurd length (hundreds of millions of characters) is
/// refused.
pub fn auth_header_value(token: &str) -> (r: Option<String>)
    ensures
        (match r {
            Some(v) => v@ == spec_auth_header(token@),
            None => (seq![':'] + token@).len() > 0x1000_0000,
        }),
{
    let mut auth = String::from_str(":");
    auth.append(token);
    proof {
        reveal_strlit(":");
        assert(auth@ =~= seq![':'] + token@);
    }
    if auth.as_str().unicode_len() > 0x1000_0000 {
        return None;
    }
    let encoded = base64_encode_std(auth.as_str());
    let mut r = String::from_str("Basic ");
    r.append(encoded.as_str());
    Some(r)
}

/// True exactly when an HTTP status code counts as success.
pub fn http_status_is_success(code: u16) -> (r: bool)
    ensures
        r == (200 <= code && code < 300),
{
    200 <= code && code < 300
}

/// The API error reported for a non-successful response, carrying
/// the code and its reason phrase.
pub open spec fn spec_api_error(code: u16, reason: Seq<char>) -> TailscaleErrorGhost {
    TailscaleErrorGhost::ApiError("HTTP "@ + dec_str(code as int) + ": "@ + reason)
}

/// Builds the error for a non-successful response status.
pub fn api_error_for_status(code: u16, reason: &str) -> (r: TailscaleError)
    ensures
        r@ == spec_api_error(code, reason@),
{
    let mut m = String::from_str("HTTP ");
    push_dec_u32(code as u32, &mut m);
    m.append(": ");
    m.append(reason);
    TailscaleError::ApiError(m)
}

} // verus!
