use magik_core::account::{AccountSwitchingMode, AuthMode, StoredAccount};
use magik_core::account_switching::switch_active_account_on_rate_limit;
use magik_core::proactive::select_preferred_account_id;
use magik_core::reactive::select_next_account_id;
use magik_core::switch_state::RateLimitSwitchState;
use magik_core::timestamp::Timestamp;
use magik_core::usage::{RateLimitSnapshot, StoredRateLimitSnapshot, UsageReading};

fn fixed_now() -> Timestamp {
    // 2025-12-22 12:00:00 UTC
    Timestamp::new(1_766_404_800, 0)
}

fn reading(percent: f64) -> UsageReading {
    if percent.is_finite() {
        UsageReading::Finite((percent * 100.0).floor() as i64)
    } else {
        UsageReading::NonFinite
    }
}

fn chatgpt_account(id: &str) -> StoredAccount {
    StoredAccount::new(id.to_string(), AuthMode::ChatGPT, true, false)
}

fn api_key_account(id: &str) -> StoredAccount {
    StoredAccount::new(id.to_string(), AuthMode::ApiKey, false, true)
}

fn after(now: Timestamp, seconds: u64) -> Timestamp {
    Timestamp::new(now.secs + seconds as i64, now.nanos)
}

/// What the provider reports with an answer: the usage of both windows, in
/// percent, and the seconds until the short window resets.
#[derive(Clone, Copy)]
struct SnapshotEvent {
    primary_used: f64,
    secondary_used: f64,
    primary_reset_after: Option<u64>,
}

fn snapshot(primary_used: f64, secondary_used: f64, primary_reset_after: Option<u64>) -> SnapshotEvent {
    SnapshotEvent { primary_used, secondary_used, primary_reset_after }
}

/// A record that holds the two readings of `event` and names no next
/// reset.
fn record_of_usage(account_id: &str, event: SnapshotEvent) -> StoredRateLimitSnapshot {
    StoredRateLimitSnapshot::new(
        account_id.to_string(),
        Some(RateLimitSnapshot {
            primary_used_percent: reading(event.primary_used),
            secondary_used_percent: reading(event.secondary_used),
        }),
        None,
        None,
    )
}

/// A record that holds the two readings of `event` and names the short
/// window's next reset: the seconds of the event, counted from
/// `observed_at`.
fn record_with_next_reset(
    account_id: &str,
    event: SnapshotEvent,
    observed_at: Timestamp,
) -> StoredRateLimitSnapshot {
    StoredRateLimitSnapshot::new(
        account_id.to_string(),
        Some(RateLimitSnapshot {
            primary_used_percent: reading(event.primary_used),
            secondary_used_percent: reading(event.secondary_used),
        }),
        event.primary_reset_after.map(|seconds| after(observed_at, seconds)),
        None,
    )
}

/// A record without a snapshot that names the time at which a limit that
/// was hit at `now` is lifted.
fn recorded_limit_hint(account_id: &str, reset_in: Option<u64>, now: Timestamp) -> StoredRateLimitSnapshot {
    StoredRateLimitSnapshot::new(
        account_id.to_string(),
        None,
        reset_in.map(|seconds| after(now, seconds)),
        None,
    )
}

#[test]
fn selects_another_chatgpt_account_when_available() {
    let a = chatgpt_account("acct-a");
    let b = chatgpt_account("acct-b");
    let accounts = vec![a.clone(), b.clone()];
    let snapshots = Vec::new();

    let mut state = RateLimitSwitchState::default();
    state.mark_limited(&a.id, AuthMode::ChatGPT, None);
    let next = select_next_account_id(
        &state,
        &accounts,
        &snapshots,
        false,
        AccountSwitchingMode::OnLimit,
        fixed_now(),
        Some(a.id.as_str()),
        Some(a.id.as_str()),
    );
    assert_eq!(next.as_deref(), Some(b.id.as_str()));
}

#[test]
fn skips_chatgpt_accounts_blocked_by_reset_time() {
    let a = chatgpt_account("acct-a");
    let b = chatgpt_account("acct-b");
    let accounts = vec![a.clone(), b.clone()];

    let now = fixed_now();
    let reset_in = Some(60 * 60);
    let snapshots = vec![recorded_limit_hint(&b.id, reset_in, now)];

    let mut state = RateLimitSwitchState::default();
    state.mark_limited(&a.id, AuthMode::ChatGPT, None);
    let next = select_next_account_id(
        &state,
        &accounts,
        &snapshots,
        false,
        AccountSwitchingMode::OnLimit,
        now,
        Some(a.id.as_str()),
        Some(a.id.as_str()),
    );
    assert!(next.is_none());
}

#[test]
fn api_key_fallback_requires_all_chatgpt_limited() {
    let a = chatgpt_account("acct-a");
    let b = chatgpt_account("acct-b");
    let api = api_key_account("api-key-1");
    let accounts = vec![a.clone(), b.clone(), api.clone()];
    let snapshots = Vec::new();

    let now = fixed_now();
    let mut state = RateLimitSwitchState::default();
    state.mark_limited(&a.id, AuthMode::ChatGPT, None);

    let next = select_next_account_id(
        &state,
        &accounts,
        &snapshots,
        true,
        AccountSwitchingMode::OnLimit,
        now,
        Some(a.id.as_str()),
        Some(a.id.as_str()),
    );
    assert_eq!(next.as_deref(), Some(b.id.as_str()));

    // After both ChatGPT accounts are exhausted, allow API key fallback.
    state.mark_limited(&b.id, AuthMode::ChatGPT, None);
    let next = select_next_account_id(
        &state,
        &accounts,
        &snapshots,
        true,
        AccountSwitchingMode::OnLimit,
        now,
        Some(b.id.as_str()),
        Some(a.id.as_str()),
    );
    assert_eq!(next.as_deref(), Some(api.id.as_str()));
}

#[test]
fn prefers_current_account_override_over_active_account() {
    let a = chatgpt_account("acct-a");
    let b = chatgpt_account("acct-b");
    let accounts = vec![a.clone(), b.clone()];
    let snapshots = Vec::new();

    let mut state = RateLimitSwitchState::default();
    state.mark_limited(&b.id, AuthMode::ChatGPT, None);

    // The store reports `a` as active; the caller names `b` as current.
    let next = select_next_account_id(
        &state,
        &accounts,
        &snapshots,
        false,
        AccountSwitchingMode::OnLimit,
        fixed_now(),
        Some(b.id.as_str()),
        Some(a.id.as_str()),
    );

    assert_eq!(next.as_deref(), Some(a.id.as_str()));
}

#[test]
fn switches_active_account_on_usage_limit() {
    let a = chatgpt_account("acct-a");
    let b = chatgpt_account("acct-b");
    let accounts = vec![a.clone(), b.clone()];
    let snapshots = Vec::new();

    let mut state = RateLimitSwitchState::default();
    let now = fixed_now();
    let next = switch_active_account_on_rate_limit(
        &mut state,
        &accounts,
        &snapshots,
        false,
        AccountSwitchingMode::OnLimit,
        now,
        a.id.as_str(),
        AuthMode::ChatGPT,
        None,
    );

    assert_eq!(next.as_deref(), Some(b.id.as_str()));

    // The account that was switched to is the one to activate. With it
    // active, and the first account recorded as tried, nothing is left.
    assert!(state.has_tried(&a.id));
    let after_activation = select_next_account_id(
        &state,
        &accounts,
        &snapshots,
        false,
        AccountSwitchingMode::OnLimit,
        now,
        None,
        next.as_deref(),
    );
    assert_eq!(after_activation, None);
}

#[test]
fn does_not_pick_weekly_exhausted_accounts() {
    let a = chatgpt_account("acct-a");
    let b = chatgpt_account("acct-b");
    let c = chatgpt_account("acct-c");
    let accounts = vec![a.clone(), b.clone(), c.clone()];

    let now = fixed_now();
    let snapshots = vec![
        record_of_usage(&b.id, snapshot(0.0, 100.0, Some(10))),
        record_of_usage(&c.id, snapshot(20.0, 10.0, Some(100))),
    ];

    let mut state = RateLimitSwitchState::default();
    state.mark_limited(&a.id, AuthMode::ChatGPT, None);
    let next = select_next_account_id(
        &state,
        &accounts,
        &snapshots,
        false,
        AccountSwitchingMode::OnLimit,
        now,
        Some(a.id.as_str()),
        Some(a.id.as_str()),
    );

    assert_eq!(next.as_deref(), Some(c.id.as_str()));
}

#[test]
fn api_key_fallback_when_remaining_chatgpt_accounts_exhausted_by_snapshot() {
    let a = chatgpt_account("acct-a");
    let b = chatgpt_account("acct-b");
    let api = api_key_account("api-key-1");
    let accounts = vec![a.clone(), b.clone(), api.clone()];

    let now = fixed_now();
    let snapshots = vec![record_of_usage(&b.id, snapshot(0.0, 100.0, Some(10)))];

    let mut state = RateLimitSwitchState::default();
    state.mark_limited(&a.id, AuthMode::ChatGPT, None);
    let next = select_next_account_id(
        &state,
        &accounts,
        &snapshots,
        true,
        AccountSwitchingMode::OnLimit,
        now,
        Some(a.id.as_str()),
        Some(a.id.as_str()),
    );

    assert_eq!(next.as_deref(), Some(api.id.as_str()));
}

#[test]
fn preferred_account_selection_skips_exhausted_candidates() {
    let a = chatgpt_account("acct-a");
    let b = chatgpt_account("acct-b");
    let accounts = vec![a.clone(), b.clone()];

    let now = fixed_now();
    let snapshots = vec![
        record_of_usage(&a.id, snapshot(0.0, 100.0, Some(1))),
        record_of_usage(&b.id, snapshot(10.0, 10.0, Some(10))),
    ];

    let pick = select_preferred_account_id(
        &accounts,
        &snapshots,
        AccountSwitchingMode::ResetBased,
        false,
        now,
        None,
    );

    assert_eq!(pick.as_deref(), Some(b.id.as_str()));
}

// The reactive selector, case by case.

fn limited(ids: &[&str]) -> RateLimitSwitchState {
    let mut state = RateLimitSwitchState::new();
    for id in ids {
        state.mark_limited(id, AuthMode::ChatGPT, None);
    }
    state
}

fn next_of(
    state: &RateLimitSwitchState,
    accounts: &Vec<StoredAccount>,
    snapshots: &Vec<StoredRateLimitSnapshot>,
    allow_api_key_fallback: bool,
    mode: AccountSwitchingMode,
    current: &str,
) -> Option<String> {
    select_next_account_id(
        state,
        accounts,
        snapshots,
        allow_api_key_fallback,
        mode,
        fixed_now(),
        Some(current),
        None,
    )
}

#[test]
fn tried_account_gives_way_to_untried_account_with_usage() {
    let accounts = vec![chatgpt_account("A"), chatgpt_account("B")];
    let snapshots = vec![record_of_usage("B", snapshot(20.0, 0.0, None))];
    let state = limited(&["A"]);
    let next = next_of(&state, &accounts, &snapshots, false, AccountSwitchingMode::OnLimit, "A");
    assert_eq!(next.as_deref(), Some("B"));
}

#[test]
fn exhausted_account_with_pending_reset_is_not_selected() {
    let now = fixed_now();
    let accounts = vec![chatgpt_account("A"), chatgpt_account("B")];
    let snapshots = vec![StoredRateLimitSnapshot::new(
        "B".to_string(),
        Some(RateLimitSnapshot {
            primary_used_percent: reading(0.0),
            secondary_used_percent: reading(100.0),
        }),
        Some(after(now, 10)),
        None,
    )];
    let state = limited(&["A"]);
    let next = next_of(&state, &accounts, &snapshots, false, AccountSwitchingMode::OnLimit, "A");
    assert_eq!(next, None);
}

#[test]
fn exhausted_account_is_passed_over_for_usable_one() {
    let accounts = vec![chatgpt_account("A"), chatgpt_account("B"), chatgpt_account("C")];
    let snapshots = vec![
        record_of_usage("B", snapshot(0.0, 100.0, None)),
        record_of_usage("C", snapshot(20.0, 10.0, None)),
    ];
    let state = limited(&["A"]);
    let next = next_of(&state, &accounts, &snapshots, false, AccountSwitchingMode::OnLimit, "A");
    assert_eq!(next.as_deref(), Some("C"));
}

#[test]
fn manual_mode_selects_nothing() {
    let accounts = vec![chatgpt_account("A"), chatgpt_account("B"), api_key_account("K")];
    let state = limited(&["A"]);
    let next = next_of(&state, &accounts, &Vec::new(), true, AccountSwitchingMode::Manual, "A");
    assert_eq!(next, None);
}

#[test]
fn active_account_counts_as_current_when_none_is_named() {
    let accounts = vec![chatgpt_account("A"), chatgpt_account("B")];
    let state = RateLimitSwitchState::new();
    let next = select_next_account_id(
        &state,
        &accounts,
        &Vec::new(),
        false,
        AccountSwitchingMode::OnLimit,
        fixed_now(),
        None,
        Some("A"),
    );
    assert_eq!(next.as_deref(), Some("B"));
    let next = select_next_account_id(
        &state,
        &accounts,
        &Vec::new(),
        false,
        AccountSwitchingMode::OnLimit,
        fixed_now(),
        None,
        None,
    );
    assert_eq!(next.as_deref(), Some("A"));
}

#[test]
fn lowest_usage_wins_and_ties_go_to_the_smaller_id() {
    let accounts = vec![
        chatgpt_account("cur"),
        chatgpt_account("zed"),
        chatgpt_account("mid"),
        chatgpt_account("abc"),
    ];
    let snapshots = vec![
        record_of_usage("zed", snapshot(30.0, 5.0, None)),
        record_of_usage("mid", snapshot(10.0, 30.0, None)),
        record_of_usage("abc", snapshot(55.0, 0.0, None)),
    ];
    let state = limited(&["cur"]);
    let next = next_of(&state, &accounts, &snapshots, false, AccountSwitchingMode::OnLimit, "cur");
    assert_eq!(next.as_deref(), Some("mid"));

    // The same accounts listed the other way round give the same answer.
    let mut reversed = accounts.clone();
    reversed.reverse();
    let next = next_of(&state, &reversed, &snapshots, false, AccountSwitchingMode::OnLimit, "cur");
    assert_eq!(next.as_deref(), Some("mid"));

    // An account without a snapshot is scored as unused.
    let bare = vec![chatgpt_account("cur"), chatgpt_account("b2"), chatgpt_account("b10")];
    let next = next_of(&state, &bare, &Vec::new(), false, AccountSwitchingMode::OnLimit, "cur");
    assert_eq!(next.as_deref(), Some("b10"));
}

#[test]
fn selection_is_repeatable() {
    let accounts = vec![chatgpt_account("A"), chatgpt_account("B"), chatgpt_account("C")];
    let snapshots = vec![
        record_of_usage("B", snapshot(40.0, 40.0, None)),
        record_of_usage("C", snapshot(40.0, 10.0, None)),
    ];
    let state = limited(&["A"]);
    let first = next_of(&state, &accounts, &snapshots, true, AccountSwitchingMode::EvenUsage, "A");
    let second = next_of(&state, &accounts, &snapshots, true, AccountSwitchingMode::EvenUsage, "A");
    assert_eq!(first.as_deref(), Some("B"));
    assert_eq!(first, second);
}

#[test]
fn selection_never_returns_current_or_tried_account() {
    let accounts = vec![chatgpt_account("A"), chatgpt_account("B"), chatgpt_account("C")];
    let state = limited(&["B"]);
    let next = next_of(&state, &accounts, &Vec::new(), false, AccountSwitchingMode::OnLimit, "A");
    assert_eq!(next.as_deref(), Some("C"));
    let state = limited(&["B", "C"]);
    let next = next_of(&state, &accounts, &Vec::new(), false, AccountSwitchingMode::OnLimit, "A");
    assert_eq!(next, None);
}

#[test]
fn fallback_is_refused_while_a_chatgpt_account_is_untried() {
    // `A` is current but was never reported as limited, so it still counts
    // as available and keeps the fallback shut.
    let accounts = vec![chatgpt_account("A"), api_key_account("K")];
    let state = RateLimitSwitchState::new();
    let next = next_of(&state, &accounts, &Vec::new(), true, AccountSwitchingMode::OnLimit, "A");
    assert_eq!(next, None);

    let state = limited(&["A"]);
    let next = next_of(&state, &accounts, &Vec::new(), true, AccountSwitchingMode::OnLimit, "A");
    assert_eq!(next.as_deref(), Some("K"));
    let next = next_of(&state, &accounts, &Vec::new(), false, AccountSwitchingMode::OnLimit, "A");
    assert_eq!(next, None);
}

#[test]
fn fallback_takes_the_first_api_key_account_by_id() {
    let accounts = vec![
        api_key_account("key-b"),
        chatgpt_account("A"),
        api_key_account("key-a"),
        StoredAccount::new("key-0".to_string(), AuthMode::ApiKey, false, false),
    ];
    let state = limited(&["A"]);
    let next = next_of(&state, &accounts, &Vec::new(), true, AccountSwitchingMode::OnLimit, "A");
    assert_eq!(next.as_deref(), Some("key-a"));

    // With no ChatGPT account at all the fallback is open.
    let keys = vec![api_key_account("key-b"), api_key_account("key-a")];
    let state = RateLimitSwitchState::new();
    let next = next_of(&state, &keys, &Vec::new(), true, AccountSwitchingMode::OnLimit, "key-a");
    assert_eq!(next.as_deref(), Some("key-b"));
}

#[test]
fn account_without_credentials_is_never_selected() {
    let accounts = vec![
        chatgpt_account("A"),
        StoredAccount::new("B".to_string(), AuthMode::ChatGPT, false, true),
        StoredAccount::new("C".to_string(), AuthMode::ChatgptAuthTokens, true, false),
    ];
    let state = limited(&["A"]);
    let next = next_of(&state, &accounts, &Vec::new(), false, AccountSwitchingMode::OnLimit, "A");
    assert_eq!(next.as_deref(), Some("C"));
}

#[test]
fn snapshot_horizon_blocks_only_while_it_lies_ahead() {
    let now = fixed_now();
    let accounts = vec![chatgpt_account("A"), chatgpt_account("B")];
    let state = limited(&["A"]);

    let ahead = vec![recorded_limit_hint("B", Some(1), now)];
    let next = next_of(&state, &accounts, &ahead, false, AccountSwitchingMode::OnLimit, "A");
    assert_eq!(next, None);

    let due = vec![recorded_limit_hint("B", Some(0), now)];
    let next = next_of(&state, &accounts, &due, false, AccountSwitchingMode::OnLimit, "A");
    assert_eq!(next.as_deref(), Some("B"));

    // A nanosecond ahead still blocks.
    let barely = vec![StoredRateLimitSnapshot::new(
        "B".to_string(),
        None,
        None,
        Some(Timestamp::new(now.secs, now.nanos + 1)),
    )];
    let next = next_of(&state, &accounts, &barely, false, AccountSwitchingMode::OnLimit, "A");
    assert_eq!(next, None);
}

#[test]
fn blocked_chatgpt_account_opens_the_fallback() {
    let now = fixed_now();
    let accounts = vec![chatgpt_account("A"), chatgpt_account("B"), api_key_account("K")];
    let state = limited(&["A"]);
    let ahead = vec![recorded_limit_hint("B", Some(3600), now)];
    let next = next_of(&state, &accounts, &ahead, true, AccountSwitchingMode::OnLimit, "A");
    assert_eq!(next.as_deref(), Some("K"));
}

#[test]
fn last_listed_snapshot_of_an_account_is_in_force() {
    let accounts = vec![chatgpt_account("A"), chatgpt_account("B")];
    let state = limited(&["A"]);
    let snapshots = vec![
        record_of_usage("B", snapshot(0.0, 100.0, None)),
        record_of_usage("B", snapshot(10.0, 10.0, None)),
    ];
    let next = next_of(&state, &accounts, &snapshots, false, AccountSwitchingMode::OnLimit, "A");
    assert_eq!(next.as_deref(), Some("B"));
    let snapshots = vec![
        record_of_usage("B", snapshot(10.0, 10.0, None)),
        record_of_usage("B", snapshot(0.0, 100.0, None)),
    ];
    let next = next_of(&state, &accounts, &snapshots, false, AccountSwitchingMode::OnLimit, "A");
    assert_eq!(next, None);
}

#[test]
fn reset_based_mode_ranks_by_horizon_then_usage_then_id() {
    let now = fixed_now();
    let earlier = Timestamp::new(now.secs - 500, 0);
    let early = Timestamp::new(now.secs - 100, 0);
    let stored = |id: &str, used: f64, primary: Option<Timestamp>, secondary: Option<Timestamp>| {
        StoredRateLimitSnapshot::new(
            id.to_string(),
            Some(RateLimitSnapshot {
                primary_used_percent: reading(used),
                secondary_used_percent: reading(0.0),
            }),
            primary,
            secondary,
        )
    };
    let accounts = vec![
        chatgpt_account("cur"),
        chatgpt_account("none"),
        chatgpt_account("late"),
        chatgpt_account("soon"),
    ];
    let snapshots = vec![
        stored("none", 1.0, None, None),
        // The horizon is the later of the two resets.
        stored("late", 5.0, Some(earlier), Some(early)),
        stored("soon", 90.0, Some(earlier), None),
    ];
    let state = limited(&["cur"]);
    let next = next_of(&state, &accounts, &snapshots, false, AccountSwitchingMode::ResetBased, "cur");
    assert_eq!(next.as_deref(), Some("soon"));
    // By usage alone the account without a horizon would win.
    let next = next_of(&state, &accounts, &snapshots, false, AccountSwitchingMode::OnLimit, "cur");
    assert_eq!(next.as_deref(), Some("none"));

    // Equal horizons are decided by usage, equal usage by identifier.
    let snapshots = vec![
        stored("none", 1.0, Some(early), None),
        stored("late", 1.0, Some(early), None),
        stored("soon", 2.0, Some(early), None),
    ];
    let next = next_of(&state, &accounts, &snapshots, false, AccountSwitchingMode::ResetBased, "cur");
    assert_eq!(next.as_deref(), Some("late"));
}

#[test]
fn two_switches_in_a_row_end_at_the_api_key_fallback() {
    let accounts = vec![chatgpt_account("A"), chatgpt_account("B"), api_key_account("K")];
    let snapshots = Vec::new();
    let now = fixed_now();
    let mut state = RateLimitSwitchState::new();

    let first = switch_active_account_on_rate_limit(
        &mut state,
        &accounts,
        &snapshots,
        true,
        AccountSwitchingMode::OnLimit,
        now,
        "A",
        AuthMode::ChatGPT,
        None,
    );
    assert_eq!(first.as_deref(), Some("B"));
    assert!(state.has_tried("A"));
    assert!(!state.has_tried("B"));

    let second = switch_active_account_on_rate_limit(
        &mut state,
        &accounts,
        &snapshots,
        true,
        AccountSwitchingMode::OnLimit,
        now,
        "B",
        AuthMode::ChatGPT,
        None,
    );
    assert_eq!(second.as_deref(), Some("K"));

    let third = switch_active_account_on_rate_limit(
        &mut state,
        &accounts,
        &snapshots,
        true,
        AccountSwitchingMode::OnLimit,
        now,
        "K",
        AuthMode::ApiKey,
        None,
    );
    assert_eq!(third, None);
    assert!(!state.is_limited_chatgpt("K"));
    assert!(state.is_limited_chatgpt("B"));
}

#[test]
fn mark_limited_never_moves_a_horizon_back() {
    let now = fixed_now();
    let mut state = RateLimitSwitchState::new();
    assert_eq!(state.blocked_until("A"), None);
    assert!(!state.has_tried("A"));

    state.mark_limited("A", AuthMode::ApiKey, Some(after(now, 60)));
    assert!(state.has_tried("A"));
    assert!(!state.is_limited_chatgpt("A"));
    assert_eq!(state.blocked_until("A"), Some(after(now, 60)));

    state.mark_limited("A", AuthMode::ChatGPT, Some(after(now, 30)));
    assert!(state.is_limited_chatgpt("A"));
    assert_eq!(state.blocked_until("A"), Some(after(now, 60)));

    state.mark_limited("A", AuthMode::ChatGPT, Some(after(now, 60)));
    assert_eq!(state.blocked_until("A"), Some(after(now, 60)));

    state.mark_limited("A", AuthMode::ChatGPT, None);
    assert_eq!(state.blocked_until("A"), Some(after(now, 60)));

    state.mark_limited("A", AuthMode::ChatGPT, Some(Timestamp::new(now.secs + 60, 1)));
    assert_eq!(state.blocked_until("A"), Some(Timestamp::new(now.secs + 60, 1)));
    assert_eq!(state.blocked_until("B"), None);
}

#[test]
fn account_with_a_next_reset_ahead_is_blocked_whatever_its_usage() {
    let a = chatgpt_account("acct-a");
    let b = chatgpt_account("acct-b");
    let c = chatgpt_account("acct-c");
    let accounts = vec![a.clone(), b.clone(), c.clone()];
    let now = fixed_now();
    // The same snapshots, recorded with the next reset of their short
    // window: ten and a hundred seconds ahead.
    let snapshots = vec![
        record_with_next_reset(&b.id, snapshot(0.0, 100.0, Some(10)), now),
        record_with_next_reset(&c.id, snapshot(20.0, 10.0, Some(100)), now),
    ];
    let state = limited(&[a.id.as_str()]);
    let next = next_of(&state, &accounts, &snapshots, false, AccountSwitchingMode::OnLimit, &a.id);
    assert_eq!(next, None);

    // Once the reset of `c` has come, `c` is free again; `b` stays used up.
    let later = select_next_account_id(
        &state,
        &accounts,
        &snapshots,
        false,
        AccountSwitchingMode::OnLimit,
        after(now, 100),
        Some(a.id.as_str()),
        None,
    );
    assert_eq!(later.as_deref(), Some(c.id.as_str()));
}

#[test]
fn answer_does_not_depend_on_the_order_of_the_listings() {
    let accounts = vec![
        chatgpt_account("cur"),
        chatgpt_account("d"),
        chatgpt_account("b"),
        api_key_account("key"),
        chatgpt_account("c"),
        chatgpt_account("a"),
    ];
    let snapshots = vec![
        record_of_usage("a", snapshot(70.0, 0.0, None)),
        record_of_usage("b", snapshot(30.0, 30.0, None)),
        record_of_usage("c", snapshot(5.0, 30.0, None)),
        record_of_usage("d", snapshot(0.0, 100.0, None)),
    ];
    let state = limited(&["cur"]);
    let expected = Some("b".to_string());
    for shift in 0..accounts.len() {
        let mut listed = accounts.clone();
        listed.rotate_left(shift);
        for turn in 0..snapshots.len() {
            let mut records = snapshots.clone();
            records.rotate_left(turn);
            for mode in [AccountSwitchingMode::OnLimit, AccountSwitchingMode::ResetBased] {
                assert_eq!(next_of(&state, &listed, &records, true, mode, "cur"), expected);
            }
            records.reverse();
            listed.reverse();
            let next = next_of(&state, &listed, &records, true, AccountSwitchingMode::Step45, "cur");
            assert_eq!(next, expected);
        }
    }
}

#[test]
fn ties_between_identifiers_go_the_way_strings_are_ordered() {
    let ids = ["b", "a", "B", "a1", "", "\u{e9}", "z", "a-b", "ab", "\u{10348}", "\u{ffff}", "10", "9"];
    for left in ids {
        for right in ids {
            if left == right {
                continue;
            }
            let accounts = vec![chatgpt_account(left), chatgpt_account(right)];
            let state = RateLimitSwitchState::new();
            let next = select_next_account_id(
                &state,
                &accounts,
                &Vec::new(),
                false,
                AccountSwitchingMode::OnLimit,
                fixed_now(),
                None,
                None,
            );
            let smaller = if left < right { left } else { right };
            assert_eq!(next.as_deref(), Some(smaller));
        }
    }
}
