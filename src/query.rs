//! The tail query: the request URI of the WebSocket upgrade, its headers, and the
//! endpoint to connect to.

use vstd::prelude::*;
use vstd::string::*;
use vstd::utf8::encode_utf8;

verus! {

/// The port used where the URL names none.
pub const DEFAULT_PORT: u16 = 443;

/// What to tail: the host, the log selector, and how far back the tail starts
/// (nanoseconds since the epoch).
pub struct TailQuery {
    pub hostname: String,
    pub filter: String,
    pub start: u64,
}

/// A byte that percent-encoding keeps as it is: ASCII letters and digits, `-`, `.`, `_`, `~`.
pub open spec fn unreserved(b: u8) -> bool {
    (48 <= b <= 57) || (65 <= b <= 90) || (97 <= b <= 122) || b == 45 || b == 46 || b == 95
        || b == 126
}

/// An upper-case hexadecimal digit.
pub open spec fn hex_digit(d: u8) -> char {
    "0123456789ABCDEF"@[d as int]
}

/// Every byte but the unreserved ones written as `%` and two upper-case hex digits.
pub open spec fn percent_encoded(bytes: Seq<u8>) -> Seq<char>
    decreases bytes.len(),
{
    if bytes.len() == 0 {
        Seq::empty()
    } else {
        let b = bytes.last();
        percent_encoded(bytes.drop_last()) + if unreserved(b) {
            seq![(b as u32) as char]
        } else {
            seq!['%', hex_digit(b / 16), hex_digit(b % 16)]
        }
    }
}

/// The decimal digits of a number, without leading zeros.
pub open spec fn decimal(n: nat) -> Seq<char>
    decreases n,
{
    if n < 10 {
        seq!["0123456789"@[n as int]]
    } else {
        decimal(n / 10) + seq!["0123456789"@[(n % 10) as int]]
    }
}

/// Relies on urlencoding::encode: every byte of the UTF-8 text but ASCII letters, digits
/// and `-._~` becomes `%` and two upper-case hex digits.
#[verifier::external_body]
fn url_encode(s: &str) -> (r: String)
    ensures
        r@ == percent_encoded(encode_utf8(s@)),
{
    urlencoding::encode(s).into_owned()
}

/// Relies on u64's `to_string`: its decimal digits.
#[verifier::external_body]
fn decimal_text(n: u64) -> (r: String)
    ensures
        r@ == decimal(n as nat),
{
    n.to_string()
}

/// What url::Url::parse makes of a text: nothing where it is no URL, else the URL's
/// domain (none for an IP address) and explicit port (none where absent or the
/// scheme's default).
pub uninterp spec fn url_endpoint(url: Seq<char>) -> Option<(Option<Seq<char>>, Option<u16>)>;

/// Relies on url::Url::parse, Url::domain and Url::port.
#[verifier::external_body]
fn parse_endpoint(url: &str) -> (r: Option<(Option<String>, Option<u16>)>)
    ensures
        match r {
            None => url_endpoint(url@) is None,
            Some((d, p)) => url_endpoint(url@) == Some(
                (
                    match d {
                        Some(s) => Some(s@),
                        None => None,
                    },
                    p,
                ),
            ),
        },
{
    let u = url::Url::parse(url).ok()?;
    Some((u.domain().map(|d| d.to_string()), u.port()))
}

/// Why no endpoint can be taken from a URL.
#[derive(Debug, Clone, Copy, PartialEq, Eq, Structural)]
pub enum TargetError {
    /// The text is not a URL.
    InvalidUrl,
    /// The URL names no domain.
    NoDomain,
}

/// The path and query of the upgrade request.
pub open spec fn tail_path_of(filter: Seq<char>, start: nat) -> Seq<char> {
    "/loki/api/v1/tail?limit=1&query="@ + percent_encoded(encode_utf8(filter)) + "&start="@
        + decimal(start)
}

/// The full WebSocket URI of a query.
pub open spec fn tail_url_of(hostname: Seq<char>, filter: Seq<char>, start: nat) -> Seq<char> {
    "wss://"@ + hostname + tail_path_of(filter, start)
}

/// The host and port to connect to for a URL.
pub open spec fn target_of(url: Seq<char>) -> Result<(Seq<char>, u16), TargetError> {
    match url_endpoint(url) {
        None => Err(TargetError::InvalidUrl),
        Some((None, _)) => Err(TargetError::NoDomain),
        Some((Some(d), p)) => Ok(
            (
                d,
                match p {
                    Some(p) => p,
                    None => DEFAULT_PORT,
                },
            ),
        ),
    }
}

impl TailQuery {
    pub fn new(hostname: String, filter: String, start: u64) -> (r: TailQuery)
        ensures
            r.hostname == hostname,
            r.filter == filter,
            r.start == start,
    {
        TailQuery { hostname, filter, start }
    }

    /// The path and query of the upgrade request, with the filter percent-encoded.
    pub fn tail_path(&self) -> (r: String)
        ensures
            r@ == tail_path_of(self.filter@, self.start as nat),
    {
        let mut s = String::from_str("/loki/api/v1/tail?limit=1&query=");
        let enc = url_encode(self.filter.as_str());
        s.append(enc.as_str());
        s.append("&start=");
        let digits = decimal_text(self.start);
        s.append(digits.as_str());
        s
    }

    /// The full `wss://` URI of the query.
    pub fn tail_url(&self) -> (r: String)
        ensures
            r@ == tail_url_of(self.hostname@, self.filter@, self.start as nat),
    {
        let mut s = String::from_str("wss://");
        s.append(self.hostname.as_str());
        let path = self.tail_path();
        s.append(path.as_str());
        assert(s@ =~= tail_url_of(self.hostname@, self.filter@, self.start as nat));
        s
    }
}

/// The host and port to connect to for a WebSocket URL; the port defaults to 443.
pub fn connect_target(url: &str) -> (r: Result<(String, u16), TargetError>)
    ensures
        match r {
            Ok((h, p)) => target_of(url@) == Ok::<_, TargetError>((h@, p)),
            Err(e) => target_of(url@) == Err::<(Seq<char>, u16), _>(e),
        },
{
    match parse_endpoint(url) {
        None => Err(TargetError::InvalidUrl),
        Some((None, _)) => Err(TargetError::NoDomain),
        Some((Some(d), p)) => {
            let port = match p {
                Some(p) => p,
                None => DEFAULT_PORT,
            };
            Ok((d, port))
        },
    }
}

/// The headers of the upgrade request, in order: host, upgrade, connection, the
/// client's key, and the protocol version.
pub fn upgrade_headers(hostname: &String, key: &String) -> (r: Vec<(String, String)>)
    ensures
        r@.len() == 5,
        r@[0].0@ == "Host"@ && r@[0].1@ == hostname@,
        r@[1].0@ == "Upgrade"@ && r@[1].1@ == "websocket"@,
        r@[2].0@ == "Connection"@ && r@[2].1@ == "upgrade"@,
        r@[3].0@ == "Sec-WebSocket-Key"@ && r@[3].1@ == key@,
        r@[4].0@ == "Sec-WebSocket-Version"@ && r@[4].1@ == "13"@,
{
    let mut r: Vec<(String, String)> = Vec::new();
    r.push((String::from_str("Host"), hostname.clone()));
    r.push((String::from_str("Upgrade"), String::from_str("websocket")));
    r.push((String::from_str("Connection"), String::from_str("upgrade")));
    r.push((String::from_str("Sec-WebSocket-Key"), key.clone()));
    r.push((String::from_str("Sec-WebSocket-Version"), String::from_str("13")));
    r
}

} // verus!
