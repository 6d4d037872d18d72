use std::sync::Arc;

use mi7_agent::error::{classify_error, status_display, AgentError, RetryDecision, RetryState};

#[test]
fn error_kinds() {
    let net = AgentError::Network("x".into());
    assert!(net.is_retryable() && net.is_network_error() && !net.is_api_error());
    let rate = AgentError::RateLimit("x".into());
    assert!(rate.is_retryable() && rate.is_api_error() && !rate.is_network_error());
    let timeout = AgentError::Timeout("x".into());
    assert!(timeout.is_retryable() && timeout.is_network_error());
    let api = AgentError::Api("x".into());
    assert!(!api.is_retryable() && api.is_api_error());
    for e in [
        AgentError::InvalidRequest("x".into()),
        AgentError::ToolExecution("x".into()),
        AgentError::Routing("x".into()),
        AgentError::Internal("x".into()),
    ] {
        assert!(!e.is_retryable() && !e.is_api_error() && !e.is_network_error());
    }
}

#[test]
fn error_texts() {
    assert_eq!(AgentError::Api("m".into()).to_text(), "API error: m");
    assert_eq!(AgentError::Network("m".into()).to_text(), "Network error: m");
    assert_eq!(AgentError::RateLimit("m".into()).to_text(), "Rate limit exceeded: m");
    assert_eq!(AgentError::InvalidRequest("m".into()).to_text(), "Invalid request: m");
    assert_eq!(AgentError::ToolExecution("m".into()).to_text(), "Tool execution error: m");
    assert_eq!(AgentError::Routing("m".into()).to_text(), "Agent routing error: m");
    assert_eq!(AgentError::Timeout("m".into()).to_text(), "Task timeout: m");
    assert_eq!(AgentError::Internal("m".into()).to_text(), "Internal error: m");
}

#[test]
fn classify_statuses() {
    match classify_error(429, "slow down") {
        AgentError::RateLimit(m) => assert_eq!(m, "slow down"),
        _ => panic!("expected rate limit"),
    }
    match classify_error(503, "busy") {
        AgentError::Api(m) => assert_eq!(m, "Server error 503 Service Unavailable: busy"),
        _ => panic!("expected api error"),
    }
    match classify_error(404, "nope") {
        AgentError::InvalidRequest(m) => assert_eq!(m, "Client error 404 Not Found: nope"),
        _ => panic!("expected invalid request"),
    }
    match classify_error(302, "moved") {
        AgentError::Api(m) => assert_eq!(m, "moved"),
        _ => panic!("expected api error"),
    }
    match classify_error(599, "odd") {
        AgentError::Api(m) => assert_eq!(m, "Server error 599 <unknown status code>: odd"),
        _ => panic!("expected api error"),
    }
}

#[test]
fn status_display_matches_reqwest() {
    for code in [100u16, 200, 404, 418, 429, 500, 599, 999] {
        let s = reqwest::StatusCode::from_u16(code).unwrap();
        assert_eq!(status_display(code), s.to_string());
    }
}

#[test]
fn failures_from_transport() {
    assert!(matches!(AgentError::from_failure(true, "t".into()), AgentError::Network(_)));
    assert!(matches!(AgentError::from_failure(false, "t".into()), AgentError::Api(_)));
    match AgentError::from_send_failure(true, "slow".into()) {
        AgentError::Timeout(m) => assert_eq!(m, "slow"),
        _ => panic!("expected a timeout"),
    }
    match AgentError::from_send_failure(false, "refused".into()) {
        AgentError::Network(m) => assert_eq!(m, "refused"),
        _ => panic!("expected a network error"),
    }
}

#[test]
fn retry_state_counts_attempts() {
    let mut s = RetryState::new();
    assert!(s.should_retry(3));
    s.record_attempt(Arc::new(AgentError::Network("a".into())));
    s.record_attempt(Arc::new(AgentError::Network("b".into())));
    assert_eq!(s.attempts, 2);
    assert!(s.should_retry(3));
    s.record_attempt(Arc::new(AgentError::Timeout("c".into())));
    assert!(!s.should_retry(3));
    assert!(matches!(s.last_error.as_deref(), Some(AgentError::Timeout(_))));
    assert_eq!(RetryState::default().attempts, 0);
}

#[test]
fn retry_decisions_are_bounded() {
    let mut s = RetryState::new();
    let mut retries = 0;
    while let RetryDecision::Retry = s.after_failure(AgentError::Network("down".into()), 3) {
        retries += 1;
    }
    assert_eq!(retries, 3);
    assert_eq!(s.attempts, 3);
    let fresh = RetryState::new();
    assert!(matches!(fresh.decide(&AgentError::Api("bad".into()), 3), RetryDecision::GiveUp));
    assert!(matches!(fresh.decide(&AgentError::RateLimit("r".into()), 0), RetryDecision::GiveUp));
    assert!(matches!(fresh.decide(&AgentError::RateLimit("r".into()), 1), RetryDecision::Retry));
}
