use basic_axum_rate_limit::time::Timestamp;
use std::time::Duration;

#[test]
fn instants_from_parts() {
    assert_eq!(Timestamp::from_parts(0, 0).nanos, 0);
    assert_eq!(Timestamp::from_parts(1, 5).nanos, 1_000_000_005);
    assert_eq!(Timestamp::from_parts(-1, 5).nanos, -999_999_995);
    assert_eq!(Timestamp::from_secs(42).nanos, 42_000_000_000);
    assert_eq!(
        Timestamp::from_parts(i64::MAX, u32::MAX).nanos,
        i64::MAX as i128 * 1_000_000_000 + u32::MAX as i128
    );
    assert_eq!(Timestamp::from_parts(i64::MIN, 0).nanos, i64::MIN as i128 * 1_000_000_000);
}

#[test]
fn clock_shows_a_time_after_the_year_2020() {
    let first = Timestamp::now();
    let second = Timestamp::now();
    assert!(Timestamp::from_secs(1_577_836_800).is_before(first));
    assert!(!second.is_before(first));
}

#[test]
fn before_is_strict() {
    let t = Timestamp::from_secs(10);
    assert!(!t.is_before(t));
    assert!(t.is_before(Timestamp { nanos: t.nanos + 1 }));
    assert!(!t.is_before(Timestamp { nanos: t.nanos - 1 }));
}

#[test]
fn differences_are_exact_and_floored_at_zero() {
    let a = Timestamp::from_parts(10, 500);
    let b = Timestamp::from_parts(12, 499);
    assert_eq!(b.nanos_since(a), 1_999_999_999);
    assert_eq!(a.nanos_since(b), 0);
    assert_eq!(a.nanos_since(a), 0);
    assert_eq!(b.seconds_since(a), 1);
    assert_eq!(Timestamp::from_parts(12, 500).seconds_since(a), 2);
    assert_eq!(a.seconds_since(b), 0);
    let least = Timestamp { nanos: i128::MIN };
    let greatest = Timestamp { nanos: i128::MAX };
    assert_eq!(greatest.nanos_since(least), u128::MAX);
    assert_eq!(least.nanos_since(greatest), 0);
    assert_eq!(Timestamp { nanos: -5 }.nanos_since(Timestamp { nanos: -7 }), 2);
    assert_eq!(Timestamp { nanos: 5 }.nanos_since(Timestamp { nanos: -7 }), 12);
    assert_eq!(Timestamp { nanos: 0 }.nanos_since(least), 1u128 << 127);
}

#[test]
fn seconds_are_rounded_toward_zero() {
    let start = Timestamp::from_secs(100);
    let just_under_two = Timestamp { nanos: start.nanos + 1_999_999_999 };
    assert!(just_under_two.within_seconds_of(start, 2));
    assert!(!just_under_two.within_seconds_of(start, 1));
    assert!(!start.within_seconds_of(start, 0));
    assert!(start.within_seconds_of(start, 1));
    // less than a second before the start is no whole second
    let half_before = Timestamp { nanos: start.nanos - 500_000_000 };
    assert!(!half_before.within_seconds_of(start, 0));
    assert!(half_before.within_seconds_of(start, 1));
    // a whole second before the start is less than nothing
    let one_before = Timestamp { nanos: start.nanos - 1_000_000_000 };
    assert!(one_before.within_seconds_of(start, 0));
    assert!(!Timestamp { nanos: i128::MAX }.within_seconds_of(Timestamp { nanos: i128::MIN }, u64::MAX));
    assert!(Timestamp { nanos: i128::MIN }.within_seconds_of(Timestamp { nanos: i128::MAX }, 0));
}

#[test]
fn adding_a_duration_is_exact_until_the_last_instant() {
    let t = Timestamp::from_secs(5);
    assert_eq!(t.saturating_add(Duration::from_secs(7)), Timestamp::from_secs(12));
    assert_eq!(t.saturating_add(Duration::from_nanos(1)).nanos, 5_000_000_001);
    assert_eq!(t.saturating_add(Duration::ZERO), t);
    assert_eq!(Timestamp { nanos: -3 }.saturating_add(Duration::from_nanos(3)).nanos, 0);
    assert_eq!(Timestamp { nanos: -3 }.saturating_add(Duration::from_nanos(2)).nanos, -1);
    assert_eq!(Timestamp { nanos: -3 }.saturating_add(Duration::from_nanos(10)).nanos, 7);
    let longest = Duration::MAX.as_nanos() as i128;
    assert_eq!(
        Timestamp { nanos: i128::MIN }.saturating_add(Duration::MAX).nanos,
        i128::MIN + longest
    );
    assert_eq!(
        Timestamp { nanos: i128::MAX - 10 }.saturating_add(Duration::from_nanos(10)).nanos,
        i128::MAX
    );
    assert_eq!(
        Timestamp { nanos: i128::MAX - 10 }.saturating_add(Duration::from_nanos(11)).nanos,
        i128::MAX
    );
    assert_eq!(Timestamp { nanos: i128::MAX }.saturating_add(Duration::MAX).nanos, i128::MAX);
}
