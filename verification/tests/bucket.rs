use basic_axum_rate_limit::config::{RateLimitConfig, UNITS_PER_TOKEN};
use basic_axum_rate_limit::time::Timestamp;
use basic_axum_rate_limit::types::RateLimitEntry;
use std::time::Duration;

fn at(seconds: i64) -> Timestamp {
    Timestamp::from_secs(seconds)
}

fn config() -> RateLimitConfig {
    RateLimitConfig::new(6, Duration::from_secs(30)).with_grace_period(0)
}

#[test]
fn new_entry_is_full_and_unblocked() {
    let entry = RateLimitEntry::at(6 * UNITS_PER_TOKEN, at(7));
    assert_eq!(entry.tokens, 360_000);
    assert_eq!(entry.last_refill, at(7));
    assert_eq!(entry.created_at, at(7));
    assert_eq!(entry.blocked_until, None);
    let clocked = RateLimitEntry::new(5);
    assert_eq!(clocked.tokens, 5);
    assert_eq!(clocked.last_refill, clocked.created_at);
    assert_eq!(clocked.blocked_until, None);
    assert!(at(1_577_836_800).is_before(clocked.created_at));
}

#[test]
fn check_takes_one_token_and_stamps_the_refill() {
    let mut entry = RateLimitEntry::at(360_000, at(0));
    assert_eq!(entry.check(at(3), &config()), (true, false, 300_000));
    assert_eq!(entry.tokens, 300_000);
    assert_eq!(entry.last_refill, at(3));
    assert_eq!(entry.created_at, at(0));
    assert_eq!(entry.blocked_until, None);
}

#[test]
fn check_refills_six_thousand_units_per_second() {
    let mut entry = RateLimitEntry::at(0, at(0));
    // nine seconds refill 54 000 units: not yet a token
    assert_eq!(entry.check(at(9), &config()), (false, true, 0));
    assert_eq!(entry.tokens, 54_000);
    assert_eq!(entry.last_refill, at(9));
    assert_eq!(entry.blocked_until, Some(at(39)));
    // a check during the block changes nothing
    let blocked = entry;
    assert_eq!(entry.check(at(38), &config()), (false, false, 0));
    assert_eq!(entry.tokens, blocked.tokens);
    assert_eq!(entry.last_refill, blocked.last_refill);
    assert_eq!(entry.blocked_until, blocked.blocked_until);
    // thirty seconds after the last refill 234 000 units have come
    assert_eq!(entry.check(at(39), &config()), (true, false, 174_000));
    assert_eq!(entry.blocked_until, Some(at(39)));
}

#[test]
fn check_with_a_rate_of_nothing_never_allows() {
    let nothing = RateLimitConfig::new(0, Duration::from_secs(1)).with_grace_period(0);
    let mut entry = RateLimitEntry::at(0, at(0));
    assert_eq!(entry.check(at(1_000_000), &nothing), (false, true, 0));
    assert_eq!(entry.tokens, 0);
    let mut owing = RateLimitEntry::at(-5, at(0));
    assert_eq!(owing.check(at(1_000_000), &nothing), (false, true, 0));
    assert_eq!(owing.tokens, -5);
}

#[test]
fn check_brings_an_overfull_bucket_down_to_the_capacity() {
    let mut entry = RateLimitEntry::at(i64::MAX, at(0));
    assert_eq!(entry.check(at(0), &config()), (true, false, 300_000));
}

#[test]
fn refund_and_penalty_on_an_entry() {
    let mut entry = RateLimitEntry::at(100_000, at(0));
    entry.refund(50_000, &config());
    assert_eq!(entry.tokens, 150_000);
    entry.refund(u64::MAX, &config());
    assert_eq!(entry.tokens, 360_000);
    entry.penalize(400_000);
    assert_eq!(entry.tokens, -40_000);
    entry.penalize(u64::MAX);
    assert_eq!(entry.tokens, i64::MIN);
    entry.penalize(1);
    assert_eq!(entry.tokens, i64::MIN);
    entry.refund(u64::MAX, &config());
    assert_eq!(entry.tokens, 360_000);
    assert_eq!(entry.last_refill, at(0));
    assert_eq!(entry.blocked_until, None);
}

#[test]
fn block_empties_and_blocks_and_blocks_again() {
    let mut entry = RateLimitEntry::at(360_000, at(0));
    assert!(!entry.is_blocked(at(0)));
    entry.block(at(10), &config());
    assert_eq!(entry.tokens, 0);
    assert_eq!(entry.blocked_until, Some(at(40)));
    assert_eq!(entry.last_refill, at(0));
    assert!(entry.is_blocked(at(0)));
    assert!(entry.is_blocked(Timestamp { nanos: at(40).nanos - 1 }));
    assert!(!entry.is_blocked(at(40)));
    entry.refund(1_000, &config());
    entry.block(at(20), &config());
    assert_eq!(entry.tokens, 0);
    assert_eq!(entry.blocked_until, Some(at(50)));
}

#[test]
fn retention_is_twice_the_block_duration() {
    let mut entry = RateLimitEntry::at(360_000, at(100));
    assert!(entry.is_retained(at(100), &config()));
    assert!(entry.is_retained(Timestamp { nanos: at(160).nanos - 1 }, &config()));
    assert!(!entry.is_retained(at(160), &config()));
    // an instant before the last refill counts as recent
    assert!(entry.is_retained(at(0), &config()));
    entry.block(at(1_000), &config());
    assert!(entry.is_retained(at(1_029), &config()));
    assert!(!entry.is_retained(at(1_030), &config()));
    // with no block duration nothing idle is kept, not even for an instant
    let idle = RateLimitEntry::at(360_000, at(100));
    let none = RateLimitConfig::new(6, Duration::ZERO);
    assert!(!idle.is_retained(at(100), &none));
    assert!(idle.is_retained(at(99), &none));
    let longest = RateLimitConfig::new(6, Duration::MAX);
    let twice = 2 * Duration::MAX.as_nanos() as i128;
    assert!(idle.is_retained(Timestamp { nanos: at(100).nanos + twice - 1 }, &longest));
    assert!(!idle.is_retained(Timestamp { nanos: at(100).nanos + twice }, &longest));
    assert!(!idle.is_retained(Timestamp { nanos: i128::MAX }, &longest));
}
