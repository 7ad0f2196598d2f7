use basic_axum_rate_limit::config::{RateLimitConfig, UNITS_PER_TOKEN};
use basic_axum_rate_limit::limiter::RateLimiter;
use basic_axum_rate_limit::middleware::Admission;
use basic_axum_rate_limit::screener::{RequestScreener, ScreeningConfig, ScreeningReason};
use basic_axum_rate_limit::time::Timestamp;
use basic_axum_rate_limit::types::{NoOpOnBlocked, SecurityContext};
use std::time::Duration;

fn at(seconds: i64) -> Timestamp {
    Timestamp::from_secs(1_700_000_000 + seconds)
}

fn limiter(rate: u32) -> RateLimiter<NoOpOnBlocked> {
    let config = RateLimitConfig::new(rate, Duration::from_secs(60)).with_grace_period(0);
    let screening = ScreeningConfig::new()
        .with_path_pattern(r"/\.env")
        .with_user_agent_pattern("zgrab");
    RateLimiter::new(config, NoOpOnBlocked)
        .with_screener(RequestScreener::new(&screening).unwrap())
}

#[test]
fn request_without_context_is_refused_and_touches_nothing() {
    let mut limiter = limiter(10);
    let admission = limiter.decide_at(None, "/", at(0));
    assert!(matches!(admission, Admission::MissingContext));
    assert_eq!(admission.refusal_status(), Some(500));
    assert_eq!(limiter.stats_at(at(0)), (0, 0));
}

#[test]
fn allowed_request_reports_what_is_left() {
    let mut limiter = limiter(10);
    let who = SecurityContext::new("1.1.1.1".to_string(), "Mozilla/5.0".to_string());
    let admission = limiter.decide_at(Some(&who), "/index.html", at(0));
    match admission {
        Admission::Allowed { tokens } => assert_eq!(tokens, 9 * UNITS_PER_TOKEN),
        other => panic!("unexpected {:?}", other),
    }
    assert_eq!(limiter.decide_at(Some(&who), "/", at(0)).refusal_status(), None);
}

#[test]
fn rate_limited_request_tells_new_block_from_old() {
    let mut limiter = limiter(2);
    let who = SecurityContext::new("2.2.2.2".to_string(), "Mozilla/5.0".to_string());
    limiter.decide_at(Some(&who), "/", at(0));
    limiter.decide_at(Some(&who), "/", at(0));
    let third = limiter.decide_at(Some(&who), "/", at(0));
    assert!(matches!(third, Admission::RateLimited { newly_blocked: true }));
    assert_eq!(third.refusal_status(), Some(429));
    let fourth = limiter.decide_at(Some(&who), "/", at(1));
    assert!(matches!(fourth, Admission::RateLimited { newly_blocked: false }));
    // a blocked key is refused before it is screened
    let fifth = limiter.decide_at(Some(&who), "/.env", at(2));
    assert!(matches!(fifth, Admission::RateLimited { newly_blocked: false }));
}

#[test]
fn screened_request_blocks_its_key_at_once() {
    let mut limiter = limiter(10);
    let who = SecurityContext::new("3.3.3.3".to_string(), "Mozilla/5.0".to_string());
    let admission = limiter.decide_at(Some(&who), "/.env", at(0));
    match &admission {
        Admission::Screened { reason: ScreeningReason::MaliciousPath(pattern) } => {
            assert_eq!(pattern, r"/\.env")
        }
        other => panic!("unexpected {:?}", other),
    }
    assert_eq!(admission.refusal_status(), Some(418));
    assert_eq!(limiter.stats_at(at(0)), (1, 1));
    // from now on even a harmless request of that key is refused
    let next = limiter.decide_at(Some(&who), "/index.html", at(59));
    assert!(matches!(next, Admission::RateLimited { newly_blocked: false }));
    // the bucket was emptied: after the block, one minute has refilled it
    let after = limiter.decide_at(Some(&who), "/index.html", at(60));
    match after {
        Admission::Allowed { tokens } => assert_eq!(tokens, 9 * UNITS_PER_TOKEN),
        other => panic!("unexpected {:?}", other),
    }
}

#[test]
fn screened_user_agent_is_reported() {
    let mut limiter = limiter(10);
    let who = SecurityContext::new("4.4.4.4".to_string(), "ZGrab/0.x".to_string());
    match limiter.decide(Some(&who), "/") {
        Admission::Screened { reason: ScreeningReason::MaliciousUserAgent(pattern) } => {
            assert_eq!(pattern, "zgrab")
        }
        other => panic!("unexpected {:?}", other),
    }
    assert!(matches!(
        limiter.decide(Some(&who), "/"),
        Admission::RateLimited { newly_blocked: false }
    ));
}

#[test]
fn limiter_without_screener_never_screens() {
    let config = RateLimitConfig::new(10, Duration::from_secs(60)).with_grace_period(0);
    let mut limiter = RateLimiter::new(config, NoOpOnBlocked);
    let who = SecurityContext::new("5.5.5.5".to_string(), "zgrab".to_string());
    assert!(matches!(limiter.decide_at(Some(&who), "/.env", at(0)), Admission::Allowed { .. }));
}

fn left_after(status: u16) -> i64 {
    let config = RateLimitConfig::new(10, Duration::from_secs(60))
        .with_grace_period(0)
        .with_cache_refund_ratio(UNITS_PER_TOKEN / 4)
        .with_error_penalty(3 * UNITS_PER_TOKEN);
    let mut limiter = RateLimiter::new(config, NoOpOnBlocked);
    let who = SecurityContext::new("6.6.6.6".to_string(), "agent".to_string());
    for _ in 0..5 {
        limiter.decide_at(Some(&who), "/", at(0));
    }
    // five tokens are left
    limiter.settle("6.6.6.6", status);
    match limiter.decide_at(Some(&who), "/", at(0)) {
        Admission::Allowed { tokens } => tokens + UNITS_PER_TOKEN,
        other => panic!("unexpected {:?}", other),
    }
}

#[test]
fn response_status_settles_refund_or_penalty_or_neither() {
    let five = 5 * UNITS_PER_TOKEN;
    assert_eq!(left_after(200), five);
    assert_eq!(left_after(204), five);
    assert_eq!(left_after(301), five);
    assert_eq!(left_after(304), five + UNITS_PER_TOKEN / 4);
    assert_eq!(left_after(399), five);
    assert_eq!(left_after(400), five - 3 * UNITS_PER_TOKEN);
    assert_eq!(left_after(404), five - 3 * UNITS_PER_TOKEN);
    assert_eq!(left_after(499), five - 3 * UNITS_PER_TOKEN);
    assert_eq!(left_after(500), five - 3 * UNITS_PER_TOKEN);
    assert_eq!(left_after(599), five - 3 * UNITS_PER_TOKEN);
    assert_eq!(left_after(600), five);
    assert_eq!(left_after(100), five);
}

#[test]
fn settling_an_unknown_key_changes_nothing() {
    let mut limiter = limiter(10);
    limiter.settle("nobody", 304);
    limiter.settle("nobody", 500);
    assert_eq!(limiter.stats_at(at(0)), (0, 0));
}
