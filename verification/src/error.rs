//! Error kinds of the assistant, how they are reported, and when a failed
//! request is tried again.
use std::sync::Arc;
use vstd::prelude::*;

use crate::text::{concat2, concat3, decimal, decimal_string, owned};

verus! {

/// What went wrong, with a description.
pub enum AgentError {
    Api(String),
    Network(String),
    RateLimit(String),
    InvalidRequest(String),
    ToolExecution(String),
    Routing(String),
    Timeout(String),
    Internal(String),
}

/// The text that an error is reported as.
pub open spec fn error_text(e: AgentError) -> Seq<char> {
    match e {
        AgentError::Api(m) => "API error: "@ + m@,
        AgentError::Network(m) => "Network error: "@ + m@,
        AgentError::RateLimit(m) => "Rate limit exceeded: "@ + m@,
        AgentError::InvalidRequest(m) => "Invalid request: "@ + m@,
        AgentError::ToolExecution(m) => "Tool execution error: "@ + m@,
        AgentError::Routing(m) => "Agent routing error: "@ + m@,
        AgentError::Timeout(m) => "Task timeout: "@ + m@,
        AgentError::Internal(m) => "Internal error: "@ + m@,
    }
}

/// Errors worth trying again: network failures, rate limits and timeouts.
pub open spec fn retryable(e: AgentError) -> bool {
    e is Network || e is RateLimit || e is Timeout
}

impl AgentError {
    /// Whether the failed request may succeed if tried again.
    pub fn is_retryable(&self) -> (b: bool)
        ensures
            b == retryable(*self),
    {
        match self {
            AgentError::Network(_) | AgentError::RateLimit(_) | AgentError::Timeout(_) => true,
            _ => false,
        }
    }

    /// Whether the service answered with an error (including a rate limit).
    pub fn is_api_error(&self) -> (b: bool)
        ensures
            b == (*self is Api || *self is RateLimit),
    {
        match self {
            AgentError::Api(_) | AgentError::RateLimit(_) => true,
            _ => false,
        }
    }

    /// Whether the service could not be reached in time.
    pub fn is_network_error(&self) -> (b: bool)
        ensures
            b == (*self is Network || *self is Timeout),
    {
        match self {
            AgentError::Network(_) | AgentError::Timeout(_) => true,
            _ => false,
        }
    }

    /// The text this error is reported as, such as `"API error: ..."`.
    pub fn to_text(&self) -> (r: String)
        ensures
            r@ == error_text(*self),
    {
        match self {
            AgentError::Api(m) => concat2("API error: ", m.as_str()),
            AgentError::Network(m) => concat2("Network error: ", m.as_str()),
            AgentError::RateLimit(m) => concat2("Rate limit exceeded: ", m.as_str()),
            AgentError::InvalidRequest(m) => concat2("Invalid request: ", m.as_str()),
            AgentError::ToolExecution(m) => concat2("Tool execution error: ", m.as_str()),
            AgentError::Routing(m) => concat2("Agent routing error: ", m.as_str()),
            AgentError::Timeout(m) => concat2("Task timeout: ", m.as_str()),
            AgentError::Internal(m) => concat2("Internal error: ", m.as_str()),
        }
    }

    /// The error a chat request that could not be sent is reported as: a
    /// timeout when the request timed out, a network error otherwise.
    pub fn from_send_failure(timed_out: bool, text: String) -> (e: AgentError)
        ensures
            timed_out ==> e == AgentError::Timeout(text),
            !timed_out ==> e == AgentError::Network(text),
    {
        if timed_out {
            AgentError::Timeout(text)
        } else {
            AgentError::Network(text)
        }
    }

    /// The error a failed chat request is treated as: a network error when the
    /// HTTP transport failed, an API error otherwise.
    pub fn from_failure(transport_failed: bool, text: String) -> (e: AgentError)
        ensures
            transport_failed ==> e == AgentError::Network(text),
            !transport_failed ==> e == AgentError::Api(text),
    {
        if transport_failed {
            AgentError::Network(text)
        } else {
            AgentError::Api(text)
        }
    }
}

/// The count of failed attempts of one request, and the last failure.
pub struct RetryState {
    pub attempts: u32,
    pub last_error: Option<Arc<AgentError>>,
}

/// What to do after a failed attempt.
pub enum RetryDecision {
    /// Report the failure.
    GiveUp,
    /// Wait, then try again.
    Retry,
}

/// The decision after a failure `e` when `attempts` retries were already made
/// and at most `max_retries` are allowed.
pub open spec fn retry_decision(attempts: u32, e: AgentError, max_retries: u32) -> RetryDecision {
    if retryable(e) && attempts < max_retries {
        RetryDecision::Retry
    } else {
        RetryDecision::GiveUp
    }
}

impl RetryState {
    /// No attempt has failed yet.
    pub fn new() -> (s: Self)
        ensures
            s.attempts == 0,
            s.last_error is None,
    {
        RetryState { attempts: 0, last_error: None }
    }

    /// Whether fewer than `max_retries` retries were made.
    pub fn should_retry(&self, max_retries: u32) -> (b: bool)
        ensures
            b == (self.attempts < max_retries),
    {
        self.attempts < max_retries
    }

    /// Counts a failed attempt and remembers its error.
    pub fn record_attempt(&mut self, error: Arc<AgentError>)
        requires
            old(self).attempts < u32::MAX,
        ensures
            final(self).attempts == old(self).attempts + 1,
            final(self).last_error == Some(error),
    {
        self.attempts = self.attempts + 1;
        self.last_error = Some(error);
    }

    /// Whether to try a request again after it failed with `error`: only for a
    /// retryable error, and only while fewer than `max_retries` retries were made.
    pub fn decide(&self, error: &AgentError, max_retries: u32) -> (d: RetryDecision)
        ensures
            d == retry_decision(self.attempts, *error, max_retries),
    {
        if !error.is_retryable() || !self.should_retry(max_retries) {
            RetryDecision::GiveUp
        } else {
            RetryDecision::Retry
        }
    }
}

impl RetryState {
    /// Handles a failed attempt: decides as [`RetryState::decide`] does and,
    /// when the request is to be tried again, records the attempt.
    pub fn after_failure(&mut self, error: AgentError, max_retries: u32) -> (d: RetryDecision)
        ensures
            d == retry_decision(old(self).attempts, error, max_retries),
            d is Retry ==> final(self).attempts == old(self).attempts + 1
                && final(self).last_error == Some(Arc::new(error)),
            d is GiveUp ==> *final(self) == *old(self),
    {
        let d = self.decide(&error, max_retries);
        match d {
            RetryDecision::Retry => {
                self.record_attempt(Arc::new(error));
                RetryDecision::Retry
            },
            RetryDecision::GiveUp => RetryDecision::GiveUp,
        }
    }
}

impl Default for RetryState {
    fn default() -> (s: Self)
        ensures
            s.attempts == 0,
            s.last_error is None,
    {
        RetryState::new()
    }
}

/// A request that keeps failing is retried at most `max_retries` times: from a
/// fresh state, after `k` recorded failures the decision is to retry only if
/// `k < max_retries`, so the request is sent at most `max_retries + 1` times.
pub proof fn lemma_retries_bounded(k: u32, e: AgentError, max_retries: u32)
    ensures
        retry_decision(k, e, max_retries) is Retry ==> k < max_retries,
        k >= max_retries ==> retry_decision(k, e, max_retries) is GiveUp,
{
}

/// An error that is not retryable is never retried, however few attempts were
/// made; network errors and timeouts are retryable.
pub proof fn lemma_error_kinds(k: u32, e: AgentError, max_retries: u32)
    ensures
        !retryable(e) ==> retry_decision(k, e, max_retries) is GiveUp,
        (e is Network || e is Timeout) ==> retryable(e),
        !((e is Api || e is RateLimit) && (e is Network || e is Timeout)),
{
}

/// The reason phrase that `reqwest::StatusCode::canonical_reason` gives for a
/// status code, if it knows one.
pub uninterp spec fn canonical_reason_of(code: u16) -> Option<Seq<char>>;

/// Calls `reqwest::StatusCode::from_u16` and `canonical_reason`: the standard
/// reason phrase of the code (such as `"Not Found"` for 404), named by
/// `canonical_reason_of`, a fixed table in the http crate.
#[verifier::external_body]
fn canonical_reason(code: u16) -> (r: Option<String>)
    requires
        100 <= code <= 999,
    ensures
        match r {
            Some(s) => canonical_reason_of(code) == Some(s@),
            None => canonical_reason_of(code) is None,
        },
{
    match reqwest::StatusCode::from_u16(code) {
        Ok(status) => status.canonical_reason().map(|s| s.to_string()),
        Err(_) => None,
    }
}

/// How an HTTP status code is displayed: the number, a space, and its reason
/// phrase (`"<unknown status code>"` when there is none).
pub open spec fn status_text(code: u16) -> Seq<char> {
    decimal(code as nat) + " "@ + match canonical_reason_of(code) {
        Some(r) => r,
        None => "<unknown status code>"@,
    }
}

/// The error that an HTTP error status maps to.
pub open spec fn status_error_matches(status: u16, message: Seq<char>, e: AgentError) -> bool {
    if status == 429 {
        e matches AgentError::RateLimit(m) && m@ == message
    } else if 500 <= status < 600 {
        e matches AgentError::Api(m) && m@ == "Server error "@ + status_text(status) + ": "@ + message
    } else if 400 <= status < 500 {
        e matches AgentError::InvalidRequest(m) && m@ == "Client error "@ + status_text(status) + ": "@ + message
    } else {
        e matches AgentError::Api(m) && m@ == message
    }
}

/// The displayed text of an HTTP status code, as `reqwest::StatusCode`
/// displays it.
pub fn status_display(code: u16) -> (r: String)
    requires
        100 <= code <= 999,
    ensures
        r@ == status_text(code),
{
    let num = decimal_string(code as u64);
    let reason = match canonical_reason(code) {
        Some(s) => s,
        None => owned("<unknown status code>"),
    };
    concat3(num.as_str(), " ", reason.as_str())
}

/// How an unsuccessful response is classified, over every status code: 429
/// is a rate limit carrying the body; every other client error (400 to 499)
/// is an invalid request reading "Client error <status>: <body>"; every server
/// error (500 to 599) is an API error reading "Server error <status>: <body>";
/// any other status is an API error carrying the body as is.
pub proof fn lemma_classification(status: u16, message: Seq<char>, e: AgentError)
    requires
        status_error_matches(status, message, e),
    ensures
        status == 429 ==> (e matches AgentError::RateLimit(m) && m@ == message),
        400 <= status <= 499 && status != 429 ==> (e matches AgentError::InvalidRequest(m)
            && m@ == "Client error "@ + status_text(status) + ": "@ + message),
        500 <= status <= 599 ==> (e matches AgentError::Api(m)
            && m@ == "Server error "@ + status_text(status) + ": "@ + message),
        (status < 400 || status > 599) ==> (e matches AgentError::Api(m) && m@ == message),
{
}

/// Classifies an unsuccessful HTTP response by its status code: 429 is a rate
/// limit, 5xx a server-side API error, 4xx an invalid request, anything else an
/// API error carrying the body as is.
pub fn classify_error(status: u16, message: &str) -> (e: AgentError)
    requires
        100 <= status <= 999,
    ensures
        status_error_matches(status, message@, e),
{
    if status == 429 {
        AgentError::RateLimit(owned(message))
    } else if 500 <= status && status < 600 {
        let st = status_display(status);
        let head = concat3("Server error ", st.as_str(), ": ");
        AgentError::Api(concat2(head.as_str(), message))
    } else if 400 <= status && status < 500 {
        let st = status_display(status);
        let head = concat3("Client error ", st.as_str(), ": ");
        AgentError::InvalidRequest(concat2(head.as_str(), message))
    } else {
        AgentError::Api(owned(message))
    }
}

} // verus!
