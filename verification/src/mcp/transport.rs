//! Settings and rules of the HTTP transport to an MCP server.
use vstd::prelude::*;

use crate::error::{status_display, status_text};
use crate::headers::Headers;
use crate::text::{concat2, concat3, owned, trim_slashes, trim_trailing_slashes};

verus! {

/// Seconds to wait for the server when no timeout is configured.
pub const DEFAULT_HTTP_TIMEOUT: u64 = 30;

/// Where the MCP server is, how long to wait for it, and extra headers.
pub struct HttpTransportConfig {
    pub server_url: String,
    pub timeout_secs: u64,
    pub headers: Headers,
}

/// Whether a character is an ASCII decimal digit.
pub open spec fn is_digit(c: char) -> bool {
    48 <= (c as u32) <= 57
}

/// The number that a text of decimal digits writes.
pub open spec fn digits_value(d: Seq<char>) -> nat
    decreases d.len(),
{
    if d.len() == 0 {
        0
    } else {
        digits_value(d.drop_last()) * 10 + ((d.last() as u32) - 48) as nat
    }
}

/// Whether every character of a text is a decimal digit.
pub open spec fn all_digits(d: Seq<char>) -> bool {
    forall|i: int| 0 <= i < d.len() ==> #[trigger] is_digit(d[i])
}

/// A text without the one `+` it may start with.
pub open spec fn unsigned_digits(s: Seq<char>) -> Seq<char> {
    if s.len() > 0 && s[0] == '+' {
        s.drop_first()
    } else {
        s
    }
}

/// The number that `str::parse::<u64>` reads from a text: an optional `+`
/// followed by one or more decimal digits and nothing else, when the number
/// fits in a `u64`; no number otherwise.
pub open spec fn parsed_u64(s: Seq<char>) -> Option<u64> {
    let d = unsigned_digits(s);
    if d.len() > 0 && all_digits(d) && digits_value(d) <= u64::MAX {
        Some(digits_value(d) as u64)
    } else {
        None
    }
}

/// Calls `str::parse::<u64>`, which by its documentation accepts an optional
/// `+` and then only digits, and fails on overflow.
#[verifier::external_body]
fn parse_u64(s: &str) -> (r: Option<u64>)
    ensures
        r == parsed_u64(s@),
{
    s.parse::<u64>().ok()
}

/// The timeout a setting gives: the number it holds, else the default.
pub open spec fn timeout_setting(timeout: Option<Seq<char>>) -> u64 {
    match timeout {
        Some(t) => match parsed_u64(t) {
            Some(n) => n,
            None => DEFAULT_HTTP_TIMEOUT,
        },
        None => DEFAULT_HTTP_TIMEOUT,
    }
}

impl HttpTransportConfig {
    /// The configuration from the settings `MCP_SERVER_URL`, `MCP_TIMEOUT` and
    /// `MCP_AUTH`: the server URL is required; an unreadable or missing timeout
    /// is the default; an authorization value becomes the `Authorization`
    /// header.
    pub fn from_settings(server_url: Option<String>, timeout: Option<String>, auth: Option<String>) -> (r: Result<Self, String>)
        ensures
            server_url is None <==> r is Err,
            r matches Err(msg) ==> msg@ == "MCP_SERVER_URL environment variable not set"@,
            r matches Ok(c) ==> {
                &&& c.server_url@ == server_url->0@
                &&& c.timeout_secs == timeout_setting(match timeout { Some(t) => Some(t@), None => None })
                &&& match auth {
                    Some(a) => c.headers.view() == Map::<Seq<char>, Seq<char>>::empty().insert("Authorization"@, a@),
                    None => c.headers.view() == Map::<Seq<char>, Seq<char>>::empty(),
                }
            },
    {
        let url = match server_url {
            Some(u) => u,
            None => { return Err(owned("MCP_SERVER_URL environment variable not set")); },
        };
        let secs = match &timeout {
            Some(t) => match parse_u64(t.as_str()) {
                Some(n) => n,
                None => DEFAULT_HTTP_TIMEOUT,
            },
            None => DEFAULT_HTTP_TIMEOUT,
        };
        let mut headers = Headers::new();
        match auth {
            Some(a) => headers.insert(owned("Authorization"), a),
            None => {},
        }
        Ok(HttpTransportConfig { server_url: url, timeout_secs: secs, headers })
    }
}

/// The URL the connection check is sent to: the server URL without trailing
/// slashes, then `/`.
pub fn root_endpoint(server_url: &str) -> (r: String)
    ensures
        r@ == trim_slashes(server_url@) + "/"@,
{
    let base = trim_trailing_slashes(server_url);
    concat2(base.as_str(), "/")
}

/// The URL requests are posted to: the server URL without trailing slashes,
/// then `/rpc`.
pub fn rpc_endpoint(server_url: &str) -> (r: String)
    ensures
        r@ == trim_slashes(server_url@) + "/rpc"@,
{
    let base = trim_trailing_slashes(server_url);
    concat2(base.as_str(), "/rpc")
}

/// Whether the connection check passed, from the status it got: any success,
/// or 404 (the server is running but has no page there).
pub fn connect_outcome(status: u16) -> (r: Result<(), String>)
    requires
        100 <= status <= 999,
    ensures
        (200 <= status < 300 || status == 404) <==> r is Ok,
        r matches Err(msg) ==> msg@ == "Server returned: "@ + status_text(status),
{
    if (200 <= status && status < 300) || status == 404 {
        Ok(())
    } else {
        let st = status_display(status);
        Err(concat2("Server returned: ", st.as_str()))
    }
}

/// The failure reported for an unsuccessful HTTP status and its body.
pub fn http_error(status: u16, body: &str) -> (r: String)
    requires
        100 <= status <= 999,
    ensures
        r@ == "HTTP error: "@ + status_text(status) + " - "@ + body@,
{
    let st = status_display(status);
    let head = concat3("HTTP error: ", st.as_str(), " - ");
    concat2(head.as_str(), body)
}

/// Listing and calling tools needs an initialized session.
pub fn require_initialized(initialized: bool) -> (r: Result<(), String>)
    ensures
        initialized <==> r is Ok,
        r matches Err(msg) ==> msg@ == "Not initialized"@,
{
    if initialized { Ok(()) } else { Err(owned("Not initialized")) }
}

/// A session is initialized only once.
pub fn require_uninitialized(initialized: bool) -> (r: Result<(), String>)
    ensures
        !initialized <==> r is Ok,
        r matches Err(msg) ==> msg@ == "Already initialized"@,
{
    if initialized { Err(owned("Already initialized")) } else { Ok(()) }
}

} // verus!
