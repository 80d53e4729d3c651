//! The reactive selector: which account to try next, right after the current
//! one hit a limit.

use vstd::prelude::*;
use crate::account::{account_has_credentials, AccountSwitchingMode, AuthMode, StoredAccount};
use crate::account_id::{
    id_less, id_precedes, lemma_id_irreflexive, lemma_id_total, lemma_id_transitive, str_view,
    string_view,
};
use crate::candidate::{
    candidate_ranks_before, lemma_ranks_irreflexive, lemma_ranks_total, lemma_ranks_transitive,
    ranks_before,
};
use crate::snapshot_index::{
    candidate_of, latest_snapshot, scored_usage, snapshot_exhausted, snapshot_horizon,
    SnapshotIndex,
};
use crate::switch_state::{RateLimitSwitchState, SwitchStateView};
use crate::text::text_equal;
use crate::timestamp::Timestamp;
use crate::usage::{blocked_at, is_blocked, StoredRateLimitSnapshot};

verus! {

/// The account that counts as current: the one the caller names, and the
/// active account where the caller names none.
pub open spec fn effective_current(explicit: Option<Seq<char>>, active: Option<Seq<char>>) -> Option<
    Seq<char>,
> {
    if explicit is Some {
        explicit
    } else {
        active
    }
}

/// The horizon until which `id` is blocked: the later of the expiry recorded
/// in the switch state and the reset horizon of its snapshot.
pub open spec fn effective_horizon(
    state: SwitchStateView,
    snapshots: Seq<StoredRateLimitSnapshot>,
    id: Seq<char>,
) -> Option<Timestamp> {
    Timestamp::later_of(state.horizon(id), snapshot_horizon(snapshots, id))
}

/// `id` is blocked at `now`.
pub open spec fn is_blocked_account(
    state: SwitchStateView,
    snapshots: Seq<StoredRateLimitSnapshot>,
    now: Timestamp,
    id: Seq<char>,
) -> bool {
    blocked_at(now, effective_horizon(state, snapshots, id))
}

/// A ChatGPT account that nothing can be had from at `now`: it is blocked,
/// its snapshot reports exhaustion, or it was tried and confirmed as limited.
pub open spec fn is_unavailable(
    state: SwitchStateView,
    snapshots: Seq<StoredRateLimitSnapshot>,
    now: Timestamp,
    id: Seq<char>,
) -> bool {
    is_blocked_account(state, snapshots, now, id) || snapshot_exhausted(snapshots, id) || (
    state.tried.contains(id) && state.limited_chatgpt.contains(id))
}

/// The account may be tried next as a ChatGPT account: it has usable
/// credentials, is neither current nor tried, is not blocked at `now`, and
/// its snapshot does not report exhaustion.
pub open spec fn is_chatgpt_choice(
    state: SwitchStateView,
    snapshots: Seq<StoredRateLimitSnapshot>,
    now: Timestamp,
    current: Option<Seq<char>>,
    account: StoredAccount,
) -> bool {
    &&& account.is_usable_chatgpt()
    &&& current != Some(account.id@)
    &&& !state.tried.contains(account.id@)
    &&& !is_blocked_account(state, snapshots, now, account.id@)
    &&& !snapshot_exhausted(snapshots, account.id@)
}

/// The account may be fallen back to: an API-key account with usable
/// credentials that is neither current nor tried.
pub open spec fn is_api_key_choice(
    state: SwitchStateView,
    current: Option<Seq<char>>,
    account: StoredAccount,
) -> bool {
    &&& account.is_usable_api_key()
    &&& current != Some(account.id@)
    &&& !state.tried.contains(account.id@)
}

/// Some usable ChatGPT account is still available at `now`.
pub open spec fn some_chatgpt_available(
    state: SwitchStateView,
    accounts: Seq<StoredAccount>,
    snapshots: Seq<StoredRateLimitSnapshot>,
    now: Timestamp,
) -> bool {
    exists|i: int|
        0 <= i < accounts.len() && (#[trigger] accounts[i]).is_usable_chatgpt() && !is_unavailable(
            state,
            snapshots,
            now,
            accounts[i].id@,
        )
}

/// Some account may be tried next as a ChatGPT account.
pub open spec fn some_chatgpt_choice(
    state: SwitchStateView,
    accounts: Seq<StoredAccount>,
    snapshots: Seq<StoredRateLimitSnapshot>,
    now: Timestamp,
    current: Option<Seq<char>>,
) -> bool {
    exists|i: int|
        0 <= i < accounts.len() && is_chatgpt_choice(
            state,
            snapshots,
            now,
            current,
            #[trigger] accounts[i],
        )
}

/// Some account may be fallen back to.
pub open spec fn some_api_key_choice(
    state: SwitchStateView,
    accounts: Seq<StoredAccount>,
    current: Option<Seq<char>>,
) -> bool {
    exists|i: int|
        0 <= i < accounts.len() && is_api_key_choice(state, current, #[trigger] accounts[i])
}

/// `id` is the best ChatGPT account to try next: it may be tried, and no
/// account that may be tried ranks before it.
pub open spec fn is_best_chatgpt_choice(
    state: SwitchStateView,
    accounts: Seq<StoredAccount>,
    snapshots: Seq<StoredRateLimitSnapshot>,
    mode: AccountSwitchingMode,
    now: Timestamp,
    current: Option<Seq<char>>,
    id: Seq<char>,
) -> bool {
    &&& exists|i: int|
        0 <= i < accounts.len() && is_chatgpt_choice(
            state,
            snapshots,
            now,
            current,
            #[trigger] accounts[i],
        ) && accounts[i].id@ == id
    &&& forall|j: int|
        0 <= j < accounts.len() && is_chatgpt_choice(
            state,
            snapshots,
            now,
            current,
            #[trigger] accounts[j],
        ) ==> !ranks_before(
            mode == AccountSwitchingMode::ResetBased,
            candidate_of(snapshots, accounts[j].id@),
            candidate_of(snapshots, id),
        )
}

/// `id` is the first API-key account to fall back to: it may be fallen back
/// to, and no such account has a smaller identifier.
pub open spec fn is_first_api_key_choice(
    state: SwitchStateView,
    accounts: Seq<StoredAccount>,
    current: Option<Seq<char>>,
    id: Seq<char>,
) -> bool {
    &&& exists|i: int|
        0 <= i < accounts.len() && is_api_key_choice(state, current, #[trigger] accounts[i])
            && accounts[i].id@ == id
    &&& forall|j: int|
        0 <= j < accounts.len() && is_api_key_choice(state, current, #[trigger] accounts[j])
            ==> !id_precedes(accounts[j].id@, id)
}

/// `next` is what the reactive selector answers.
///
/// In manual mode it answers nothing. Otherwise it answers the best ChatGPT
/// account that may be tried, if there is one. If there is none, it falls
/// back to the first API-key account, provided that the caller allows the
/// fallback and that no usable ChatGPT account is still available; in every
/// other case it answers nothing.
pub open spec fn is_next_account(
    state: SwitchStateView,
    accounts: Seq<StoredAccount>,
    snapshots: Seq<StoredRateLimitSnapshot>,
    allow_api_key_fallback: bool,
    mode: AccountSwitchingMode,
    now: Timestamp,
    current: Option<Seq<char>>,
    next: Option<Seq<char>>,
) -> bool {
    if mode == AccountSwitchingMode::Manual {
        next is None
    } else if some_chatgpt_choice(state, accounts, snapshots, now, current) {
        next matches Some(id) && is_best_chatgpt_choice(
            state,
            accounts,
            snapshots,
            mode,
            now,
            current,
            id,
        )
    } else if allow_api_key_fallback && !some_chatgpt_available(state, accounts, snapshots, now)
        && some_api_key_choice(state, accounts, current) {
        next matches Some(id) && is_first_api_key_choice(state, accounts, current, id)
    } else {
        next is None
    }
}

/// Tells whether `id` names the current account.
fn is_current(current: Option<&str>, id: &str) -> (r: bool)
    ensures
        r == (str_view(current) == Some(id@)),
{
    match current {
        Some(c) => text_equal(c, id),
        None => false,
    }
}

/// Returns the horizon until which `id` is blocked.
fn effective_block_horizon(state: &RateLimitSwitchState, index: &SnapshotIndex, id: &str) -> (r:
    Option<Timestamp>)
    ensures
        r == effective_horizon(state@, index.listing(), id@),
{
    Timestamp::latest(state.blocked_until(id), index.horizon(id))
}

/// Tells whether the account may be tried next as a ChatGPT account.
fn may_try_chatgpt(
    state: &RateLimitSwitchState,
    index: &SnapshotIndex,
    now: Timestamp,
    current: Option<&str>,
    account: &StoredAccount,
) -> (r: bool)
    ensures
        r == is_chatgpt_choice(state@, index.listing(), now, str_view(current), *account),
{
    account.mode.is_chatgpt() && account_has_credentials(account) && !is_current(
        current,
        account.id.as_str(),
    ) && !state.has_tried(account.id.as_str()) && !is_blocked(
        now,
        effective_block_horizon(state, index, account.id.as_str()),
    ) && !index.exhausted(account.id.as_str())
}

/// Tells whether the account may be fallen back to.
fn may_fall_back_to(state: &RateLimitSwitchState, current: Option<&str>, account: &StoredAccount)
    -> (r: bool)
    ensures
        r == is_api_key_choice(state@, str_view(current), *account),
{
    account.mode == AuthMode::ApiKey && account_has_credentials(account) && !is_current(
        current,
        account.id.as_str(),
    ) && !state.has_tried(account.id.as_str())
}

/// Finds the best ChatGPT account that may be tried next.
fn best_chatgpt_choice(
    state: &RateLimitSwitchState,
    accounts: &Vec<StoredAccount>,
    index: &SnapshotIndex,
    mode: AccountSwitchingMode,
    now: Timestamp,
    current: Option<&str>,
) -> (r: Option<usize>)
    ensures
        match r {
            Some(b) => b < accounts.len() && is_best_chatgpt_choice(
                state@,
                accounts@,
                index.listing(),
                mode,
                now,
                str_view(current),
                accounts[b as int].id@,
            ),
            None => !some_chatgpt_choice(state@, accounts@, index.listing(), now, str_view(current)),
        },
{
    let by_reset = mode == AccountSwitchingMode::ResetBased;
    let mut best: Option<usize> = None;
    let mut best_used: i64 = 0;
    let mut best_horizon: Option<Timestamp> = None;
    for i in 0..accounts.len()
        invariant
            by_reset == (mode == AccountSwitchingMode::ResetBased),
            match best {
                Some(b) => {
                    &&& b < i
                    &&& is_chatgpt_choice(
                        state@,
                        index.listing(),
                        now,
                        str_view(current),
                        accounts[b as int],
                    )
                    &&& best_used == scored_usage(index.listing(), accounts[b as int].id@)
                    &&& best_horizon == snapshot_horizon(index.listing(), accounts[b as int].id@)
                    &&& forall|j: int|
                        0 <= j < i && is_chatgpt_choice(
                            state@,
                            index.listing(),
                            now,
                            str_view(current),
                            #[trigger] accounts[j],
                        ) ==> !ranks_before(
                            by_reset,
                            candidate_of(index.listing(), accounts[j].id@),
                            candidate_of(index.listing(), accounts[b as int].id@),
                        )
                },
                None => forall|j: int|
                    0 <= j < i ==> !is_chatgpt_choice(
                        state@,
                        index.listing(),
                        now,
                        str_view(current),
                        #[trigger] accounts[j],
                    ),
            },
    {
        let account = &accounts[i];
        if may_try_chatgpt(state, index, now, current, account) {
            let used = index.used_or_zero(account.id.as_str());
            let horizon = index.horizon(account.id.as_str());
            let better = match best {
                Some(b) => candidate_ranks_before(
                    by_reset,
                    account.id.as_str(),
                    used,
                    horizon,
                    accounts[b].id.as_str(),
                    best_used,
                    best_horizon,
                ),
                None => true,
            };
            proof {
                let mine = candidate_of(index.listing(), account.id@);
                lemma_ranks_irreflexive(by_reset, mine);
                if let Some(b) = best {
                    let theirs = candidate_of(index.listing(), accounts[b as int].id@);
                    if better {
                        assert forall|j: int|
                            0 <= j < i && is_chatgpt_choice(
                                state@,
                                index.listing(),
                                now,
                                str_view(current),
                                #[trigger] accounts[j],
                            ) implies !ranks_before(
                            by_reset,
                            candidate_of(index.listing(), accounts[j].id@),
                            mine,
                        ) by {
                            let other = candidate_of(index.listing(), accounts[j].id@);
                            if ranks_before(by_reset, other, mine) {
                                lemma_ranks_transitive(by_reset, other, mine, theirs);
                            }
                        }
                    }
                }
            }
            if better {
                best = Some(i);
                best_used = used;
                best_horizon = horizon;
            }
        }
    }
    best
}

/// Tells whether no usable ChatGPT account is still available.
fn all_chatgpt_unavailable(
    state: &RateLimitSwitchState,
    accounts: &Vec<StoredAccount>,
    index: &SnapshotIndex,
    now: Timestamp,
) -> (r: bool)
    ensures
        r == !some_chatgpt_available(state@, accounts@, index.listing(), now),
{
    for i in 0..accounts.len()
        invariant
            forall|j: int|
                0 <= j < i && (#[trigger] accounts[j]).is_usable_chatgpt() ==> is_unavailable(
                    state@,
                    index.listing(),
                    now,
                    accounts[j].id@,
                ),
    {
        let account = &accounts[i];
        if account.mode.is_chatgpt() && account_has_credentials(account) {
            let id = account.id.as_str();
            let blocked = is_blocked(now, effective_block_horizon(state, index, id));
            let exhausted = index.exhausted(id);
            let limited = state.has_tried(id) && state.is_limited_chatgpt(id);
            if !(blocked || exhausted || limited) {
                return false;
            }
        }
    }
    true
}

/// Finds the first API-key account that may be fallen back to.
fn first_api_key_choice(
    state: &RateLimitSwitchState,
    accounts: &Vec<StoredAccount>,
    current: Option<&str>,
) -> (r: Option<usize>)
    ensures
        match r {
            Some(b) => b < accounts.len() && is_first_api_key_choice(
                state@,
                accounts@,
                str_view(current),
                accounts[b as int].id@,
            ),
            None => !some_api_key_choice(state@, accounts@, str_view(current)),
        },
{
    let mut best: Option<usize> = None;
    for i in 0..accounts.len()
        invariant
            match best {
                Some(b) => {
                    &&& b < i
                    &&& is_api_key_choice(state@, str_view(current), accounts[b as int])
                    &&& forall|j: int|
                        0 <= j < i && is_api_key_choice(
                            state@,
                            str_view(current),
                            #[trigger] accounts[j],
                        ) ==> !id_precedes(accounts[j].id@, accounts[b as int].id@)
                },
                None => forall|j: int|
                    0 <= j < i ==> !is_api_key_choice(
                        state@,
                        str_view(current),
                        #[trigger] accounts[j],
                    ),
            },
    {
        let account = &accounts[i];
        if may_fall_back_to(state, current, account) {
            let better = match best {
                Some(b) => id_less(account.id.as_str(), accounts[b].id.as_str()),
                None => true,
            };
            proof {
                lemma_id_irreflexive(account.id@);
                if let Some(b) = best {
                    if better {
                        assert forall|j: int|
                            0 <= j < i && is_api_key_choice(
                                state@,
                                str_view(current),
                                #[trigger] accounts[j],
                            ) implies !id_precedes(accounts[j].id@, account.id@) by {
                            if id_precedes(accounts[j].id@, account.id@) {
                                lemma_id_transitive(
                                    accounts[j].id@,
                                    account.id@,
                                    accounts[b as int].id@,
                                );
                            }
                        }
                    }
                }
            }
            if better {
                best = Some(i);
            }
        }
    }
    best
}

/// Picks the account to try next after the current one hit a limit.
///
/// `current_account_id` names the account that hit the limit; where it is
/// absent, `active_account_id`, the account that the credential store
/// reports as active, takes its place. `accounts` and `snapshots` are the
/// listings of the credential store and of the usage store.
///
/// The answer is never the current account and never a tried one, and it is
/// an API-key account only when no usable ChatGPT account is still
/// available.
pub fn select_next_account_id(
    state: &RateLimitSwitchState,
    accounts: &Vec<StoredAccount>,
    snapshots: &Vec<StoredRateLimitSnapshot>,
    allow_api_key_fallback: bool,
    mode: AccountSwitchingMode,
    now: Timestamp,
    current_account_id: Option<&str>,
    active_account_id: Option<&str>,
) -> (next: Option<String>)
    ensures
        is_next_account(
            state@,
            accounts@,
            snapshots@,
            allow_api_key_fallback,
            mode,
            now,
            effective_current(str_view(current_account_id), str_view(active_account_id)),
            string_view(next),
        ),
        next matches Some(id) ==> {
            &&& Some(id@) != effective_current(
                str_view(current_account_id),
                str_view(active_account_id),
            )
            &&& !state@.tried.contains(id@)
        },
        next matches Some(id) ==> (some_chatgpt_available(state@, accounts@, snapshots@, now)
            ==> is_best_chatgpt_choice(
            state@,
            accounts@,
            snapshots@,
            mode,
            now,
            effective_current(str_view(current_account_id), str_view(active_account_id)),
            id@,
        )),
{
    if mode == AccountSwitchingMode::Manual {
        return None;
    }
    let current = match current_account_id {
        Some(id) => Some(id),
        None => active_account_id,
    };
    let index = SnapshotIndex::new(snapshots);
    match best_chatgpt_choice(state, accounts, &index, mode, now, current) {
        Some(b) => {
            return Some(accounts[b].id.clone());
        },
        None => {},
    }
    if !allow_api_key_fallback {
        return None;
    }
    if !all_chatgpt_unavailable(state, accounts, &index, now) {
        return None;
    }
    match first_api_key_choice(state, accounts, current) {
        Some(b) => Some(accounts[b].id.clone()),
        None => None,
    }
}

/// The selector's answer is determined by what it is given: two answers to
/// the same question are the same account. Among accounts that rank alike the
/// one with the smallest identifier is the answer, whatever the order in
/// which the accounts are listed.
pub proof fn lemma_next_account_is_unique(
    state: SwitchStateView,
    accounts: Seq<StoredAccount>,
    snapshots: Seq<StoredRateLimitSnapshot>,
    allow_api_key_fallback: bool,
    mode: AccountSwitchingMode,
    now: Timestamp,
    current: Option<Seq<char>>,
    first: Option<Seq<char>>,
    second: Option<Seq<char>>,
)
    requires
        is_next_account(
            state,
            accounts,
            snapshots,
            allow_api_key_fallback,
            mode,
            now,
            current,
            first,
        ),
        is_next_account(
            state,
            accounts,
            snapshots,
            allow_api_key_fallback,
            mode,
            now,
            current,
            second,
        ),
    ensures
        first == second,
{
    if mode == AccountSwitchingMode::Manual {
    } else if some_chatgpt_choice(state, accounts, snapshots, now, current) {
        let a = first->Some_0;
        let b = second->Some_0;
        lemma_ranks_total(
            mode == AccountSwitchingMode::ResetBased,
            candidate_of(snapshots, a),
            candidate_of(snapshots, b),
        );
    } else if allow_api_key_fallback && !some_chatgpt_available(state, accounts, snapshots, now)
        && some_api_key_choice(state, accounts, current) {
        lemma_id_total(first->Some_0, second->Some_0);
    }
}

/// An answer is never the current account and never an account that was
/// tried.
pub proof fn lemma_next_account_is_fresh(
    state: SwitchStateView,
    accounts: Seq<StoredAccount>,
    snapshots: Seq<StoredRateLimitSnapshot>,
    allow_api_key_fallback: bool,
    mode: AccountSwitchingMode,
    now: Timestamp,
    current: Option<Seq<char>>,
    next: Seq<char>,
)
    requires
        is_next_account(
            state,
            accounts,
            snapshots,
            allow_api_key_fallback,
            mode,
            now,
            current,
            Some(next),
        ),
    ensures
        current != Some(next),
        !state.tried.contains(next),
{
}

/// While a usable ChatGPT account is neither blocked, nor exhausted, nor
/// tried and limited, an answer is a usable ChatGPT account that may be
/// tried, and never an API-key fallback.
pub proof fn lemma_no_fallback_while_chatgpt_available(
    state: SwitchStateView,
    accounts: Seq<StoredAccount>,
    snapshots: Seq<StoredRateLimitSnapshot>,
    allow_api_key_fallback: bool,
    mode: AccountSwitchingMode,
    now: Timestamp,
    current: Option<Seq<char>>,
    next: Seq<char>,
)
    requires
        is_next_account(
            state,
            accounts,
            snapshots,
            allow_api_key_fallback,
            mode,
            now,
            current,
            Some(next),
        ),
        some_chatgpt_available(state, accounts, snapshots, now),
    ensures
        exists|i: int|
            0 <= i < accounts.len() && is_chatgpt_choice(
                state,
                snapshots,
                now,
                current,
                #[trigger] accounts[i],
            ) && accounts[i].id@ == next,
{
}

/// The two listings hold the same entries, in whatever order.
pub open spec fn same_entries<A>(first: Seq<A>, second: Seq<A>) -> bool {
    &&& forall|i: int| 0 <= i < first.len() ==> second.contains(#[trigger] first[i])
    &&& forall|j: int| 0 <= j < second.len() ==> first.contains(#[trigger] second[j])
}

/// No two records of the listing are for the same account.
pub open spec fn one_record_each(snapshots: Seq<StoredRateLimitSnapshot>) -> bool {
    forall|i: int, j: int|
        0 <= i < j < snapshots.len() ==> (#[trigger] snapshots[i]).account_id@
            != (#[trigger] snapshots[j]).account_id@
}

/// The two listings put the same record in force for every account.
pub open spec fn same_records_in_force(
    first: Seq<StoredRateLimitSnapshot>,
    second: Seq<StoredRateLimitSnapshot>,
) -> bool {
    forall|id: Seq<char>| #[trigger] latest_snapshot(first, id) == latest_snapshot(second, id)
}

/// The record in force for an account is a record of the listing for that
/// account, and none is in force only where the listing has none for it.
pub proof fn lemma_record_in_force_is_listed(snapshots: Seq<StoredRateLimitSnapshot>, id: Seq<char>)
    ensures
        match latest_snapshot(snapshots, id) {
            Some(record) => snapshots.contains(record) && record.account_id@ == id,
            None => forall|k: int|
                0 <= k < snapshots.len() ==> (#[trigger] snapshots[k]).account_id@ != id,
        },
    decreases snapshots.len(),
{
    if snapshots.len() > 0 {
        let rest = snapshots.drop_last();
        lemma_record_in_force_is_listed(rest, id);
        if snapshots.last().account_id@ == id {
            assert(snapshots[snapshots.len() - 1] == snapshots.last());
        } else {
            match latest_snapshot(rest, id) {
                Some(record) => {
                    let k = choose|k: int| 0 <= k < rest.len() && rest[k] == record;
                    assert(snapshots[k] == record);
                },
                None => {
                    assert forall|k: int| 0 <= k < snapshots.len() implies (
                    #[trigger] snapshots[k]).account_id@ != id by {
                        if k < rest.len() {
                            assert(rest[k] == snapshots[k]);
                        }
                    }
                },
            }
        }
    }
}

/// Where every account has one record at most, the order in which the
/// records are listed does not matter: two listings of the same records put
/// the same record in force for every account.
pub proof fn lemma_records_in_force_ignore_order(
    first: Seq<StoredRateLimitSnapshot>,
    second: Seq<StoredRateLimitSnapshot>,
)
    requires
        same_entries(first, second),
        one_record_each(first),
        one_record_each(second),
    ensures
        same_records_in_force(first, second),
{
    assert forall|id: Seq<char>| #[trigger]
        latest_snapshot(first, id) == latest_snapshot(second, id) by {
        lemma_record_in_force_is_listed(first, id);
        lemma_record_in_force_is_listed(second, id);
        match latest_snapshot(first, id) {
            Some(record) => {
                let i = choose|i: int| 0 <= i < first.len() && first[i] == record;
                assert(second.contains(first[i]));
                let j = choose|j: int| 0 <= j < second.len() && second[j] == record;
                match latest_snapshot(second, id) {
                    Some(other) => {
                        let k = choose|k: int| 0 <= k < second.len() && second[k] == other;
                        assert(second[j].account_id@ == second[k].account_id@);
                        assert(j == k);
                    },
                    None => {
                        assert(second[j].account_id@ != id);
                    },
                }
            },
            None => {
                match latest_snapshot(second, id) {
                    Some(other) => {
                        let k = choose|k: int| 0 <= k < second.len() && second[k] == other;
                        assert(first.contains(second[k]));
                        let i = choose|i: int| 0 <= i < first.len() && first[i] == other;
                        assert(first[i].account_id@ != id);
                    },
                    None => {},
                }
            },
        }
    }
}

/// What holds of one listing of the accounts holds of any other listing of
/// the same accounts, as long as the same records are in force.
proof fn lemma_next_account_carries_over(
    state: SwitchStateView,
    first_accounts: Seq<StoredAccount>,
    second_accounts: Seq<StoredAccount>,
    first_snapshots: Seq<StoredRateLimitSnapshot>,
    second_snapshots: Seq<StoredRateLimitSnapshot>,
    mode: AccountSwitchingMode,
    now: Timestamp,
    current: Option<Seq<char>>,
)
    requires
        same_entries(first_accounts, second_accounts),
        same_records_in_force(first_snapshots, second_snapshots),
    ensures
        some_chatgpt_choice(state, first_accounts, first_snapshots, now, current)
            ==> some_chatgpt_choice(state, second_accounts, second_snapshots, now, current),
        some_chatgpt_available(state, first_accounts, first_snapshots, now)
            ==> some_chatgpt_available(state, second_accounts, second_snapshots, now),
        some_api_key_choice(state, first_accounts, current) ==> some_api_key_choice(
            state,
            second_accounts,
            current,
        ),
        forall|id: Seq<char>| #[trigger]
            is_best_chatgpt_choice(state, first_accounts, first_snapshots, mode, now, current, id)
                ==> is_best_chatgpt_choice(
                state,
                second_accounts,
                second_snapshots,
                mode,
                now,
                current,
                id,
            ),
        forall|id: Seq<char>| #[trigger]
            is_first_api_key_choice(state, first_accounts, current, id) ==> is_first_api_key_choice(
                state,
                second_accounts,
                current,
                id,
            ),
{
    let by_reset = mode == AccountSwitchingMode::ResetBased;
    // Whatever is read of a record is read of the record in force.
    assert forall|id: Seq<char>|
        {
            &&& #[trigger] candidate_of(first_snapshots, id) == candidate_of(second_snapshots, id)
            &&& snapshot_exhausted(first_snapshots, id) == snapshot_exhausted(second_snapshots, id)
        } by {
        assert(latest_snapshot(first_snapshots, id) == latest_snapshot(second_snapshots, id));
    }
    assert forall|account: StoredAccount| #[trigger]
        is_chatgpt_choice(state, first_snapshots, now, current, account) == is_chatgpt_choice(
            state,
            second_snapshots,
            now,
            current,
            account,
        ) by {
        let id = account.id@;
        assert(candidate_of(first_snapshots, id) == candidate_of(second_snapshots, id));
        assert(snapshot_horizon(first_snapshots, id) == candidate_of(
            first_snapshots,
            id,
        ).reset_horizon);
        assert(snapshot_horizon(second_snapshots, id) == candidate_of(
            second_snapshots,
            id,
        ).reset_horizon);
    }
    if some_chatgpt_choice(state, first_accounts, first_snapshots, now, current) {
        let i = choose|i: int|
            0 <= i < first_accounts.len() && is_chatgpt_choice(
                state,
                first_snapshots,
                now,
                current,
                #[trigger] first_accounts[i],
            );
        assert(second_accounts.contains(first_accounts[i]));
        let j = choose|j: int| 0 <= j < second_accounts.len() && second_accounts[j] == first_accounts[i];
        assert(is_chatgpt_choice(state, second_snapshots, now, current, second_accounts[j]));
    }
    if some_chatgpt_available(state, first_accounts, first_snapshots, now) {
        let i = choose|i: int|
            0 <= i < first_accounts.len() && (#[trigger] first_accounts[i]).is_usable_chatgpt()
                && !is_unavailable(state, first_snapshots, now, first_accounts[i].id@);
        let id = first_accounts[i].id@;
        assert(candidate_of(first_snapshots, id) == candidate_of(second_snapshots, id));
        assert(snapshot_horizon(first_snapshots, id) == candidate_of(
            first_snapshots,
            id,
        ).reset_horizon);
        assert(snapshot_horizon(second_snapshots, id) == candidate_of(
            second_snapshots,
            id,
        ).reset_horizon);
        assert(second_accounts.contains(first_accounts[i]));
        let j = choose|j: int| 0 <= j < second_accounts.len() && second_accounts[j] == first_accounts[i];
        assert(second_accounts[j].is_usable_chatgpt() && !is_unavailable(
            state,
            second_snapshots,
            now,
            second_accounts[j].id@,
        ));
    }
    if some_api_key_choice(state, first_accounts, current) {
        let i = choose|i: int|
            0 <= i < first_accounts.len() && is_api_key_choice(
                state,
                current,
                #[trigger] first_accounts[i],
            );
        assert(second_accounts.contains(first_accounts[i]));
        let j = choose|j: int| 0 <= j < second_accounts.len() && second_accounts[j] == first_accounts[i];
        assert(is_api_key_choice(state, current, second_accounts[j]));
    }
    assert forall|id: Seq<char>| #[trigger]
        is_best_chatgpt_choice(
            state,
            first_accounts,
            first_snapshots,
            mode,
            now,
            current,
            id,
        ) implies is_best_chatgpt_choice(
        state,
        second_accounts,
        second_snapshots,
        mode,
        now,
        current,
        id,
    ) by {
        let i = choose|i: int|
            0 <= i < first_accounts.len() && is_chatgpt_choice(
                state,
                first_snapshots,
                now,
                current,
                #[trigger] first_accounts[i],
            ) && first_accounts[i].id@ == id;
        assert(second_accounts.contains(first_accounts[i]));
        let j = choose|j: int| 0 <= j < second_accounts.len() && second_accounts[j] == first_accounts[i];
        assert(is_chatgpt_choice(state, second_snapshots, now, current, second_accounts[j]));
        assert forall|k: int|
            0 <= k < second_accounts.len() && is_chatgpt_choice(
                state,
                second_snapshots,
                now,
                current,
                #[trigger] second_accounts[k],
            ) implies !ranks_before(
            by_reset,
            candidate_of(second_snapshots, second_accounts[k].id@),
            candidate_of(second_snapshots, id),
        ) by {
            assert(first_accounts.contains(second_accounts[k]));
            let m = choose|m: int|
                0 <= m < first_accounts.len() && first_accounts[m] == second_accounts[k];
            assert(is_chatgpt_choice(state, first_snapshots, now, current, first_accounts[m]));
            assert(candidate_of(first_snapshots, first_accounts[m].id@) == candidate_of(
                second_snapshots,
                first_accounts[m].id@,
            ));
            assert(candidate_of(first_snapshots, id) == candidate_of(second_snapshots, id));
        }
    }
    assert forall|id: Seq<char>| #[trigger]
        is_first_api_key_choice(state, first_accounts, current, id) implies is_first_api_key_choice(
        state,
        second_accounts,
        current,
        id,
    ) by {
        let i = choose|i: int|
            0 <= i < first_accounts.len() && is_api_key_choice(
                state,
                current,
                #[trigger] first_accounts[i],
            ) && first_accounts[i].id@ == id;
        assert(second_accounts.contains(first_accounts[i]));
        let j = choose|j: int| 0 <= j < second_accounts.len() && second_accounts[j] == first_accounts[i];
        assert(is_api_key_choice(state, current, second_accounts[j]));
        assert forall|k: int|
            0 <= k < second_accounts.len() && is_api_key_choice(
                state,
                current,
                #[trigger] second_accounts[k],
            ) implies !id_precedes(second_accounts[k].id@, id) by {
            assert(first_accounts.contains(second_accounts[k]));
            let m = choose|m: int|
                0 <= m < first_accounts.len() && first_accounts[m] == second_accounts[k];
            assert(is_api_key_choice(state, current, first_accounts[m]));
        }
    }
}

/// The selector's answer does not depend on the order in which the stores
/// list their accounts and records: an answer to one listing is the answer
/// to every listing of the same accounts under which the same records are
/// in force.
pub proof fn lemma_next_account_ignores_listing_order(
    state: SwitchStateView,
    first_accounts: Seq<StoredAccount>,
    second_accounts: Seq<StoredAccount>,
    first_snapshots: Seq<StoredRateLimitSnapshot>,
    second_snapshots: Seq<StoredRateLimitSnapshot>,
    allow_api_key_fallback: bool,
    mode: AccountSwitchingMode,
    now: Timestamp,
    current: Option<Seq<char>>,
    next: Option<Seq<char>>,
)
    requires
        same_entries(first_accounts, second_accounts),
        same_records_in_force(first_snapshots, second_snapshots),
        is_next_account(
            state,
            first_accounts,
            first_snapshots,
            allow_api_key_fallback,
            mode,
            now,
            current,
            next,
        ),
    ensures
        is_next_account(
            state,
            second_accounts,
            second_snapshots,
            allow_api_key_fallback,
            mode,
            now,
            current,
            next,
        ),
{
    lemma_next_account_carries_over(
        state,
        first_accounts,
        second_accounts,
        first_snapshots,
        second_snapshots,
        mode,
        now,
        current,
    );
    assert(same_records_in_force(second_snapshots, first_snapshots)) by {
        assert forall|id: Seq<char>| #[trigger]
            latest_snapshot(second_snapshots, id) == latest_snapshot(first_snapshots, id) by {
            assert(latest_snapshot(first_snapshots, id) == latest_snapshot(second_snapshots, id));
        }
    }
    lemma_next_account_carries_over(
        state,
        second_accounts,
        first_accounts,
        second_snapshots,
        first_snapshots,
        mode,
        now,
        current,
    );
}

/// Where every account has one usage record at most, the selector's answer
/// is the same however the credential store orders its accounts and the
/// usage store its records.
pub proof fn lemma_next_account_ignores_store_order(
    state: SwitchStateView,
    first_accounts: Seq<StoredAccount>,
    second_accounts: Seq<StoredAccount>,
    first_snapshots: Seq<StoredRateLimitSnapshot>,
    second_snapshots: Seq<StoredRateLimitSnapshot>,
    allow_api_key_fallback: bool,
    mode: AccountSwitchingMode,
    now: Timestamp,
    current: Option<Seq<char>>,
    first: Option<Seq<char>>,
    second: Option<Seq<char>>,
)
    requires
        same_entries(first_accounts, second_accounts),
        same_entries(first_snapshots, second_snapshots),
        one_record_each(first_snapshots),
        one_record_each(second_snapshots),
        is_next_account(
            state,
            first_accounts,
            first_snapshots,
            allow_api_key_fallback,
            mode,
            now,
            current,
            first,
        ),
        is_next_account(
            state,
            second_accounts,
            second_snapshots,
            allow_api_key_fallback,
            mode,
            now,
            current,
            second,
        ),
    ensures
        first == second,
{
    lemma_records_in_force_ignore_order(first_snapshots, second_snapshots);
    lemma_next_account_ignores_listing_order(
        state,
        first_accounts,
        second_accounts,
        first_snapshots,
        second_snapshots,
        allow_api_key_fallback,
        mode,
        now,
        current,
        first,
    );
    lemma_next_account_is_unique(
        state,
        second_accounts,
        second_snapshots,
        allow_api_key_fallback,
        mode,
        now,
        current,
        first,
        second,
    );
}

} // verus!
