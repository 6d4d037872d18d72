//! The HTTP-request tool: its default headers, the methods it supports and
//! the headers it sends.
use vstd::prelude::*;

use serde_json::Value;

use crate::headers::Headers;
use crate::json::{json_parsed_of, parse_json};
use crate::text::{concat2, owned, text_eq, to_uppercase, uppercase_of};

verus! {

/// An HTTP method the tool can send.
#[derive(Debug, Clone, Copy, PartialEq, Eq, Structural)]
pub enum HttpMethod {
    Get,
    Post,
    Put,
    Delete,
}

/// The method an uppercase method name stands for, if supported.
pub open spec fn method_named(upper: Seq<char>) -> Option<HttpMethod> {
    if upper == "GET"@ {
        Some(HttpMethod::Get)
    } else if upper == "POST"@ {
        Some(HttpMethod::Post)
    } else if upper == "PUT"@ {
        Some(HttpMethod::Put)
    } else if upper == "DELETE"@ {
        Some(HttpMethod::Delete)
    } else {
        None
    }
}

/// The method used when a request names none.
pub fn default_method() -> (r: String)
    ensures
        r@ == "GET"@,
{
    owned("GET")
}

/// The method named by `method` in any letter case; an unsupported name is
/// refused with a message that quotes it.
pub fn parse_method(method: &str) -> (r: Result<HttpMethod, String>)
    ensures
        match method_named(uppercase_of(method@)) {
            Some(m) => r == Ok::<HttpMethod, String>(m),
            None => r matches Err(msg) && msg@ == "不支持的方法: "@ + method@,
        },
{
    let upper = to_uppercase(method);
    let u = upper.as_str();
    if text_eq(u, "GET") {
        Ok(HttpMethod::Get)
    } else if text_eq(u, "POST") {
        Ok(HttpMethod::Post)
    } else if text_eq(u, "PUT") {
        Ok(HttpMethod::Put)
    } else if text_eq(u, "DELETE") {
        Ok(HttpMethod::Delete)
    } else {
        Err(concat2("不支持的方法: ", method))
    }
}

/// Sends HTTP requests, adding its default headers to each.
pub struct HttpRequestTool {
    default_headers: Headers,
}

impl HttpRequestTool {
    /// A tool that adds `default_headers` to every request.
    pub fn new(default_headers: Headers) -> (t: Self)
        ensures
            t.defaults() == default_headers.view(),
            t.default_pairs() == default_headers.pairs(),
    {
        HttpRequestTool { default_headers }
    }

    /// A tool that authorizes every request with the bearer `token`.
    pub fn with_token(token: String) -> (t: Self)
        ensures
            t.defaults() == Map::<Seq<char>, Seq<char>>::empty().insert("Authorization"@, "Bearer "@ + token@),
    {
        let mut headers = Headers::new();
        headers.insert(owned("Authorization"), concat2("Bearer ", token.as_str()));
        HttpRequestTool::new(headers)
    }

    /// The default headers.
    pub closed spec fn defaults(&self) -> Map<Seq<char>, Seq<char>> {
        self.default_headers.view()
    }

    /// The default headers as `(name, value)` pairs, in the order first set.
    pub closed spec fn default_pairs(&self) -> Seq<(Seq<char>, Seq<char>)> {
        self.default_headers.pairs()
    }

    /// The tool's name.
    pub fn name(&self) -> (r: &'static str)
        ensures
            r@ == "http_request"@,
    {
        "http_request"
    }

    /// The tool's description.
    pub fn description(&self) -> (r: &'static str)
        ensures
            r@ == "发送 HTTP 请求。用于调用外部 API"@,
    {
        "发送 HTTP 请求。用于调用外部 API"
    }

    /// The headers a request carries, in the order they are added: every
    /// default header, then every header of the request itself (a name set in
    /// both is sent twice).
    pub fn request_headers(&self, custom: &Headers) -> (r: Vec<(String, String)>)
        ensures
            r@.map_values(|p: (String, String)| (p.0@, p.1@)) == self.default_pairs() + custom.pairs(),
    {
        let mut r = self.default_headers.to_pairs();
        let mut extra = custom.to_pairs();
        let ghost a = r@;
        let ghost b = extra@;
        r.append(&mut extra);
        assert(r@ == a + b);
        assert(r@.map_values(|p: (String, String)| (p.0@, p.1@)) =~= a.map_values(|p: (String, String)| (p.0@, p.1@))
            + b.map_values(|p: (String, String)| (p.0@, p.1@)));
        r
    }
}

/// The body of an HTTP response as the tool returns it.
pub enum ResponseBody {
    /// The body is one JSON value.
    Json(Value),
    /// The body is not JSON: its text as is.
    Text(String),
}

/// A response body read as JSON when it is JSON, else kept as text.
pub fn response_body(text: String) -> (r: ResponseBody)
    ensures
        match json_parsed_of(text@) {
            Some(v) => r == ResponseBody::Json(v),
            None => r == ResponseBody::Text(text),
        },
{
    match parse_json(text.as_str()) {
        Some(v) => ResponseBody::Json(v),
        None => ResponseBody::Text(text),
    }
}

} // verus!
