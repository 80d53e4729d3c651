use magik_core::account::{AccountSwitchingMode, AuthMode, StoredAccount};
use magik_core::candidate::UsageCandidate;
use magik_core::preferred::{
    next_usage_step, preferred_even_usage_account_id, preferred_reset_based_account_id,
    preferred_step45_account_id, EVEN_USAGE_DELTA, USAGE_STEP,
};
use magik_core::proactive::select_preferred_account_id;
use magik_core::timestamp::Timestamp;
use magik_core::usage::{RateLimitSnapshot, StoredRateLimitSnapshot, UsageReading};

fn basis_points(percent: f64) -> i64 {
    (percent * 100.0).floor() as i64
}

fn candidate(id: &str, percent: f64) -> UsageCandidate {
    UsageCandidate::new(id.to_string(), basis_points(percent), None)
}

fn chatgpt(id: &str) -> StoredAccount {
    StoredAccount::new(id.to_string(), AuthMode::ChatGPT, true, false)
}

fn api_key(id: &str) -> StoredAccount {
    StoredAccount::new(id.to_string(), AuthMode::ApiKey, false, true)
}

fn usage(id: &str, primary: f64, secondary: f64) -> StoredRateLimitSnapshot {
    StoredRateLimitSnapshot::new(
        id.to_string(),
        Some(RateLimitSnapshot {
            primary_used_percent: UsageReading::Finite(basis_points(primary)),
            secondary_used_percent: UsageReading::Finite(basis_points(secondary)),
        }),
        None,
        None,
    )
}

fn usage_with_reset(id: &str, primary: f64, reset_at: Timestamp) -> StoredRateLimitSnapshot {
    StoredRateLimitSnapshot::new(
        id.to_string(),
        Some(RateLimitSnapshot {
            primary_used_percent: UsageReading::Finite(basis_points(primary)),
            secondary_used_percent: UsageReading::Finite(0),
        }),
        Some(reset_at),
        None,
    )
}

fn preferred(
    accounts: &Vec<StoredAccount>,
    snapshots: &Vec<StoredRateLimitSnapshot>,
    mode: AccountSwitchingMode,
    allow_api_key_fallback: bool,
    current: Option<&str>,
) -> Option<String> {
    select_preferred_account_id(
        accounts,
        snapshots,
        mode,
        allow_api_key_fallback,
        Timestamp::new(1_766_404_800, 0),
        current,
    )
}

#[test]
fn thresholds_are_ten_points_and_forty_five_percent() {
    assert_eq!(EVEN_USAGE_DELTA, 1_000);
    assert_eq!(USAGE_STEP, 4_500);
}

#[test]
fn even_usage_proposes_the_lower_account_beyond_the_delta() {
    let candidates = vec![candidate("cur", 85.0), candidate("other", 70.0)];
    let pick = preferred_even_usage_account_id(&candidates, Some("cur"), EVEN_USAGE_DELTA);
    assert_eq!(pick.as_deref(), Some("other"));

    let accounts = vec![chatgpt("cur"), chatgpt("other")];
    let snapshots = vec![usage("cur", 85.0, 0.0), usage("other", 70.0, 0.0)];
    let pick = preferred(&accounts, &snapshots, AccountSwitchingMode::EvenUsage, false, Some("cur"));
    assert_eq!(pick.as_deref(), Some("other"));
}

#[test]
fn even_usage_proposes_nothing_within_the_delta() {
    let candidates = vec![candidate("cur", 85.0), candidate("other", 78.0)];
    let pick = preferred_even_usage_account_id(&candidates, Some("cur"), EVEN_USAGE_DELTA);
    assert_eq!(pick, None);

    let accounts = vec![chatgpt("cur"), chatgpt("other")];
    let snapshots = vec![usage("cur", 85.0, 0.0), usage("other", 78.0, 0.0)];
    let pick = preferred(&accounts, &snapshots, AccountSwitchingMode::EvenUsage, false, Some("cur"));
    assert_eq!(pick, None);
}

#[test]
fn even_usage_delta_is_exclusive() {
    // Exactly ten points apart is still within the delta.
    let candidates = vec![candidate("cur", 85.0), candidate("other", 75.0)];
    let pick = preferred_even_usage_account_id(&candidates, Some("cur"), EVEN_USAGE_DELTA);
    assert_eq!(pick, None);
    let candidates = vec![candidate("cur", 85.01), candidate("other", 75.0)];
    let pick = preferred_even_usage_account_id(&candidates, Some("cur"), EVEN_USAGE_DELTA);
    assert_eq!(pick.as_deref(), Some("other"));
}

#[test]
fn even_usage_needs_a_current_candidate_and_another_one() {
    let candidates = vec![candidate("a", 85.0), candidate("b", 10.0)];
    assert_eq!(preferred_even_usage_account_id(&candidates, None, EVEN_USAGE_DELTA), None);
    assert_eq!(preferred_even_usage_account_id(&candidates, Some("x"), EVEN_USAGE_DELTA), None);
    let alone = vec![candidate("a", 85.0)];
    assert_eq!(preferred_even_usage_account_id(&alone, Some("a"), EVEN_USAGE_DELTA), None);
    let none: Vec<UsageCandidate> = Vec::new();
    assert_eq!(preferred_even_usage_account_id(&none, Some("a"), EVEN_USAGE_DELTA), None);
}

#[test]
fn even_usage_proposes_the_least_used_account_with_ties_by_id() {
    let candidates = vec![
        candidate("cur", 90.0),
        candidate("n", 20.0),
        candidate("m", 20.0),
        candidate("z", 50.0),
    ];
    let pick = preferred_even_usage_account_id(&candidates, Some("cur"), EVEN_USAGE_DELTA);
    assert_eq!(pick.as_deref(), Some("m"));
    // Extreme readings do not overflow the comparison.
    let wide = vec![
        UsageCandidate::new("cur".to_string(), i64::MAX, None),
        UsageCandidate::new("low".to_string(), i64::MIN, None),
    ];
    let pick = preferred_even_usage_account_id(&wide, Some("cur"), i64::MAX);
    assert_eq!(pick.as_deref(), Some("low"));
    let pick = preferred_even_usage_account_id(&wide, Some("low"), i64::MAX);
    assert_eq!(pick, None);
}

#[test]
fn next_usage_step_is_the_next_multiple_capped_at_full_usage() {
    assert_eq!(next_usage_step(0, USAGE_STEP), 4_500);
    assert_eq!(next_usage_step(4_000, USAGE_STEP), 4_500);
    assert_eq!(next_usage_step(4_499, USAGE_STEP), 4_500);
    assert_eq!(next_usage_step(4_500, USAGE_STEP), 9_000);
    assert_eq!(next_usage_step(4_600, USAGE_STEP), 9_000);
    assert_eq!(next_usage_step(8_999, USAGE_STEP), 9_000);
    assert_eq!(next_usage_step(9_000, USAGE_STEP), 10_000);
    assert_eq!(next_usage_step(9_999, USAGE_STEP), 10_000);
    assert_eq!(next_usage_step(10_000, USAGE_STEP), 10_000);
    assert_eq!(next_usage_step(20_000, USAGE_STEP), 10_000);
    assert_eq!(next_usage_step(-1, USAGE_STEP), 0);
    assert_eq!(next_usage_step(-4_500, USAGE_STEP), 0);
    assert_eq!(next_usage_step(-4_501, USAGE_STEP), -4_500);
    assert_eq!(next_usage_step(i64::MAX, USAGE_STEP), 10_000);
    assert_eq!(next_usage_step(i64::MIN, 1), i64::MIN + 1);
    assert_eq!(next_usage_step(7, 10), 10);
}

#[test]
fn step45_proposes_nothing_below_the_next_step() {
    let candidates = vec![candidate("cur", 40.0), candidate("other", 5.0)];
    let pick = preferred_step45_account_id(&candidates, Some("cur"), USAGE_STEP);
    assert_eq!(pick, None);

    let accounts = vec![chatgpt("cur"), chatgpt("other")];
    let snapshots = vec![usage("cur", 40.0, 0.0), usage("other", 5.0, 0.0)];
    let pick = preferred(&accounts, &snapshots, AccountSwitchingMode::Step45, false, Some("cur"));
    assert_eq!(pick, None);
}

#[test]
fn step45_measures_the_current_account_against_the_step_ahead() {
    // At 46% the next step is 90%, which the account has not reached.
    let candidates = vec![candidate("cur", 46.0), candidate("other", 5.0)];
    let pick = preferred_step45_account_id(&candidates, Some("cur"), USAGE_STEP);
    assert_eq!(pick, None);
    // At full usage the step is reached.
    let candidates = vec![candidate("cur", 100.0), candidate("other", 5.0)];
    let pick = preferred_step45_account_id(&candidates, Some("cur"), USAGE_STEP);
    assert_eq!(pick.as_deref(), Some("other"));
}

#[test]
fn step45_proposes_the_least_used_account_when_current_is_no_candidate() {
    let candidates = vec![candidate("b", 46.0), candidate("a", 46.0), candidate("c", 50.0)];
    assert_eq!(preferred_step45_account_id(&candidates, None, USAGE_STEP).as_deref(), Some("a"));
    assert_eq!(
        preferred_step45_account_id(&candidates, Some("gone"), USAGE_STEP).as_deref(),
        Some("a")
    );
    let none: Vec<UsageCandidate> = Vec::new();
    assert_eq!(preferred_step45_account_id(&none, None, USAGE_STEP), None);

    // A current account whose snapshot reports exhaustion is no candidate.
    let accounts = vec![chatgpt("cur"), chatgpt("other")];
    let snapshots = vec![usage("cur", 46.0, 100.0), usage("other", 5.0, 0.0)];
    let pick = preferred(&accounts, &snapshots, AccountSwitchingMode::Step45, false, Some("cur"));
    assert_eq!(pick.as_deref(), Some("other"));
}

#[test]
fn reset_based_proposes_the_soonest_horizon() {
    let t = |secs: i64| Some(Timestamp::new(secs, 0));
    let candidates = vec![
        UsageCandidate::new("none".to_string(), 0, None),
        UsageCandidate::new("late".to_string(), 0, t(2_000)),
        UsageCandidate::new("soon-b".to_string(), 500, t(1_000)),
        UsageCandidate::new("soon-a".to_string(), 500, t(1_000)),
        UsageCandidate::new("soon-c".to_string(), 600, t(1_000)),
    ];
    assert_eq!(preferred_reset_based_account_id(&candidates).as_deref(), Some("soon-a"));
    let none: Vec<UsageCandidate> = Vec::new();
    assert_eq!(preferred_reset_based_account_id(&none), None);
    let unknown = vec![
        UsageCandidate::new("b".to_string(), 10, None),
        UsageCandidate::new("a".to_string(), 20, None),
    ];
    assert_eq!(preferred_reset_based_account_id(&unknown).as_deref(), Some("b"));
}

#[test]
fn reset_based_selection_ignores_the_current_accounts_state() {
    let accounts = vec![chatgpt("a"), chatgpt("b")];
    let snapshots = vec![
        usage_with_reset("a", 10.0, Timestamp::new(2_000, 0)),
        usage_with_reset("b", 90.0, Timestamp::new(1_000, 5)),
    ];
    let pick = preferred(&accounts, &snapshots, AccountSwitchingMode::ResetBased, false, Some("a"));
    assert_eq!(pick.as_deref(), Some("b"));
    // A proposal that is the current account is none.
    let pick = preferred(&accounts, &snapshots, AccountSwitchingMode::ResetBased, true, Some("b"));
    assert_eq!(pick, None);
}

#[test]
fn manual_and_on_limit_modes_propose_nothing() {
    let accounts = vec![chatgpt("a"), chatgpt("b"), api_key("k")];
    let snapshots = vec![usage("a", 99.0, 0.0), usage("b", 1.0, 0.0)];
    let keys_only = vec![api_key("k2"), api_key("k1")];
    let exhausted = vec![usage("a", 100.0, 0.0)];
    for mode in [AccountSwitchingMode::Manual, AccountSwitchingMode::OnLimit] {
        assert!(mode.is_reactive_only());
        for allow in [true, false] {
            assert_eq!(preferred(&accounts, &snapshots, mode, allow, Some("a")), None);
            assert_eq!(preferred(&accounts, &snapshots, mode, allow, None), None);
            // Not even the API-key fallback is proposed.
            assert_eq!(preferred(&accounts, &exhausted, mode, allow, Some("a")), None);
            assert_eq!(preferred(&keys_only, &Vec::new(), mode, allow, None), None);
            assert_eq!(preferred(&keys_only, &Vec::new(), mode, allow, Some("k1")), None);
        }
    }
    for mode in [
        AccountSwitchingMode::EvenUsage,
        AccountSwitchingMode::Step45,
        AccountSwitchingMode::ResetBased,
    ] {
        assert!(!mode.is_reactive_only());
    }
}

#[test]
fn api_key_is_proposed_only_without_any_chatgpt_candidate() {
    let accounts = vec![chatgpt("a"), api_key("k2"), api_key("k1")];
    let exhausted = vec![usage("a", 100.0, 0.0)];
    for mode in [
        AccountSwitchingMode::EvenUsage,
        AccountSwitchingMode::Step45,
        AccountSwitchingMode::ResetBased,
    ] {
        assert_eq!(preferred(&accounts, &exhausted, mode, true, Some("a")).as_deref(), Some("k1"));
        assert_eq!(preferred(&accounts, &exhausted, mode, false, Some("a")), None);
        // The first API-key account is proposed even where it is the current one.
        assert_eq!(preferred(&accounts, &exhausted, mode, true, Some("k1")).as_deref(), Some("k1"));
    }
    let usable = vec![usage("a", 50.0, 0.0)];
    assert_eq!(
        preferred(&accounts, &usable, AccountSwitchingMode::EvenUsage, true, Some("a")),
        None
    );
}
