use magik_core::account::{account_has_credentials, AuthMode, StoredAccount};
use magik_core::timestamp::Timestamp;
use magik_core::usage::{
    is_blocked, usage_is_exhausted, usage_reset_blocked_until, usage_used_percent,
    RateLimitSnapshot, StoredRateLimitSnapshot, UsageReading, FULL_USAGE,
};

fn to_reading(percent: f64) -> UsageReading {
    if percent.is_finite() {
        UsageReading::Finite((percent * 100.0).floor() as i64)
    } else {
        UsageReading::NonFinite
    }
}

fn stored(primary: f64, secondary: f64) -> StoredRateLimitSnapshot {
    StoredRateLimitSnapshot::new(
        "acct".to_string(),
        Some(RateLimitSnapshot {
            primary_used_percent: to_reading(primary),
            secondary_used_percent: to_reading(secondary),
        }),
        None,
        None,
    )
}

fn resets(primary: Option<Timestamp>, secondary: Option<Timestamp>) -> StoredRateLimitSnapshot {
    StoredRateLimitSnapshot::new("acct".to_string(), None, primary, secondary)
}

#[test]
fn credentials_go_by_the_kind_of_account() {
    let account = |mode, has_tokens, has_api_key| {
        StoredAccount::new("id".to_string(), mode, has_tokens, has_api_key)
    };
    assert!(account_has_credentials(&account(AuthMode::ChatGPT, true, false)));
    assert!(!account_has_credentials(&account(AuthMode::ChatGPT, false, true)));
    assert!(account_has_credentials(&account(AuthMode::ChatgptAuthTokens, true, false)));
    assert!(!account_has_credentials(&account(AuthMode::ChatgptAuthTokens, false, true)));
    assert!(account_has_credentials(&account(AuthMode::ApiKey, false, true)));
    assert!(!account_has_credentials(&account(AuthMode::ApiKey, true, false)));
    assert!(AuthMode::ChatGPT.is_chatgpt());
    assert!(AuthMode::ChatgptAuthTokens.is_chatgpt());
    assert!(!AuthMode::ApiKey.is_chatgpt());
}

#[test]
fn non_finite_readings_fail_open() {
    for snapshot in [
        stored(f64::NAN, 50.0),
        stored(50.0, f64::NAN),
        stored(f64::INFINITY, 50.0),
        stored(150.0, f64::INFINITY),
        stored(f64::NEG_INFINITY, 100.0),
        stored(f64::NAN, f64::NAN),
        stored(f64::INFINITY, f64::NEG_INFINITY),
    ] {
        assert!(!usage_is_exhausted(&snapshot));
        assert_eq!(usage_used_percent(&snapshot), None);
    }
}

#[test]
fn missing_snapshot_fails_open() {
    let bare = resets(None, None);
    assert!(!usage_is_exhausted(&bare));
    assert_eq!(usage_used_percent(&bare), None);
    assert_eq!(usage_reset_blocked_until(&bare), None);
}

#[test]
fn exhaustion_starts_at_one_hundred_percent_of_either_window() {
    assert_eq!(FULL_USAGE, 10_000);
    assert!(usage_is_exhausted(&stored(100.0, 0.0)));
    assert!(usage_is_exhausted(&stored(0.0, 100.0)));
    assert!(usage_is_exhausted(&stored(250.0, 250.0)));
    assert!(!usage_is_exhausted(&stored(99.99, 99.99)));
    // A reading just short of 100% is not rounded up to it.
    assert!(!usage_is_exhausted(&stored(99.996, 99.999_999)));
    assert_eq!(usage_used_percent(&stored(99.996, 0.0)), Some(9_999));
    assert!(usage_is_exhausted(&stored(100.000_001, 0.0)));
    assert!(!usage_is_exhausted(&stored(0.0, 0.0)));
    assert!(!usage_is_exhausted(&stored(-5.0, 20.0)));
}

#[test]
fn used_percent_is_the_larger_reading() {
    assert_eq!(usage_used_percent(&stored(20.0, 10.0)), Some(2_000));
    assert_eq!(usage_used_percent(&stored(10.0, 20.0)), Some(2_000));
    assert_eq!(usage_used_percent(&stored(0.0, 0.0)), Some(0));
    assert_eq!(usage_used_percent(&stored(-3.0, -7.5)), Some(-300));
    assert_eq!(usage_used_percent(&stored(120.0, 33.33)), Some(12_000));
}

#[test]
fn reset_horizon_is_the_later_known_reset() {
    let early = Timestamp::new(100, 999_999_999);
    let late = Timestamp::new(101, 0);
    assert_eq!(usage_reset_blocked_until(&resets(Some(early), Some(late))), Some(late));
    assert_eq!(usage_reset_blocked_until(&resets(Some(late), Some(early))), Some(late));
    assert_eq!(usage_reset_blocked_until(&resets(Some(early), None)), Some(early));
    assert_eq!(usage_reset_blocked_until(&resets(None, Some(early))), Some(early));
    assert_eq!(usage_reset_blocked_until(&resets(None, None)), None);
}

#[test]
fn blocked_means_a_horizon_strictly_after_now() {
    let now = Timestamp::new(1_000, 500);
    assert!(!is_blocked(now, None));
    assert!(!is_blocked(now, Some(now)));
    assert!(!is_blocked(now, Some(Timestamp::new(1_000, 499))));
    assert!(!is_blocked(now, Some(Timestamp::new(999, 999_999_999))));
    assert!(is_blocked(now, Some(Timestamp::new(1_000, 501))));
    assert!(is_blocked(now, Some(Timestamp::new(1_001, 0))));
    assert!(is_blocked(Timestamp::new(-5, 0), Some(Timestamp::new(-4, 0))));
}

#[test]
fn timestamps_are_ordered_by_seconds_then_nanoseconds() {
    let a = Timestamp::new(10, 5);
    let b = Timestamp::new(10, 6);
    let c = Timestamp::new(11, 0);
    assert!(a.is_before(&b) && b.is_before(&c) && a.is_before(&c));
    assert!(c.is_after(&a) && !a.is_after(&a) && !a.is_before(&a));
    assert_eq!(Timestamp::latest(Some(a), Some(c)), Some(c));
    assert_eq!(Timestamp::latest(Some(c), Some(a)), Some(c));
    assert_eq!(Timestamp::latest(None, Some(a)), Some(a));
    assert_eq!(Timestamp::latest(Some(a), None), Some(a));
    assert_eq!(Timestamp::latest(None, None), None);
    // The nanoseconds of a leap second lie past the full second.
    let leap = Timestamp::new(10, 1_500_000_000);
    assert!(b.is_before(&leap) && leap.is_before(&c));
}
