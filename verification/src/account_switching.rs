//! Switching the active account after a limit was hit.

use vstd::prelude::*;
use crate::account::{AccountSwitchingMode, AuthMode, StoredAccount};
use crate::account_id::string_view;
use crate::reactive::{
    is_chatgpt_choice, is_first_api_key_choice, is_next_account, is_unavailable,
    select_next_account_id, some_api_key_choice, some_chatgpt_available, some_chatgpt_choice,
};
use crate::switch_state::{RateLimitSwitchState, SwitchStateView};
use crate::timestamp::Timestamp;
use crate::usage::StoredRateLimitSnapshot;

verus! {

/// Records that the current account hit a limit and picks the account to
/// switch to.
///
/// The limit is recorded first, so the selection already sees the current
/// account as tried. The caller activates the returned account in the
/// credential store before it retries; a switch counts as made only once
/// that activation succeeded.
pub fn switch_active_account_on_rate_limit(
    state: &mut RateLimitSwitchState,
    accounts: &Vec<StoredAccount>,
    snapshots: &Vec<StoredRateLimitSnapshot>,
    allow_api_key_fallback: bool,
    mode: AccountSwitchingMode,
    now: Timestamp,
    current_account_id: &str,
    current_mode: AuthMode,
    blocked_until: Option<Timestamp>,
) -> (next: Option<String>)
    ensures
        final(state)@ == old(state)@.mark_limited(current_account_id@, current_mode, blocked_until),
        is_next_account(
            final(state)@,
            accounts@,
            snapshots@,
            allow_api_key_fallback,
            mode,
            now,
            Some(current_account_id@),
            string_view(next),
        ),
        next matches Some(id) ==> id@ != current_account_id@ && !final(state)@.tried.contains(id@),
{
    state.mark_limited(current_account_id, current_mode, blocked_until);
    select_next_account_id(
        state,
        accounts,
        snapshots,
        allow_api_key_fallback,
        mode,
        now,
        Some(current_account_id),
        None,
    )
}

/// An account that nothing can be had from stays so when a further limit is
/// recorded, for whichever account.
pub proof fn lemma_unavailable_is_kept(
    state: SwitchStateView,
    snapshots: Seq<StoredRateLimitSnapshot>,
    now: Timestamp,
    id: Seq<char>,
    marked: Seq<char>,
    mode: AuthMode,
    blocked_until: Option<Timestamp>,
)
    requires
        is_unavailable(state, snapshots, now, id),
    ensures
        is_unavailable(state.mark_limited(marked, mode, blocked_until), snapshots, now, id),
{
}

/// Once every usable ChatGPT account is blocked, exhausted, or tried and
/// limited, the selector answers with the API-key fallback and with nothing
/// else: the first API-key account that may be fallen back to where the
/// caller allows it and there is one, and otherwise nothing.
pub proof fn lemma_fallback_once_chatgpt_is_used_up(
    state: SwitchStateView,
    accounts: Seq<StoredAccount>,
    snapshots: Seq<StoredRateLimitSnapshot>,
    allow_api_key_fallback: bool,
    mode: AccountSwitchingMode,
    now: Timestamp,
    current: Option<Seq<char>>,
    next: Option<Seq<char>>,
)
    requires
        !some_chatgpt_available(state, accounts, snapshots, now),
        is_next_account(
            state,
            accounts,
            snapshots,
            allow_api_key_fallback,
            mode,
            now,
            current,
            next,
        ),
    ensures
        if mode != AccountSwitchingMode::Manual && allow_api_key_fallback && some_api_key_choice(
            state,
            accounts,
            current,
        ) {
            next matches Some(id) && is_first_api_key_choice(state, accounts, current, id)
        } else {
            next is None
        },
{
    if some_chatgpt_choice(state, accounts, snapshots, now, current) {
        let i = choose|i: int|
            0 <= i < accounts.len() && is_chatgpt_choice(
                state,
                snapshots,
                now,
                current,
                #[trigger] accounts[i],
            );
        assert(accounts[i].is_usable_chatgpt() && !is_unavailable(
            state,
            snapshots,
            now,
            accounts[i].id@,
        ));
    }
}

/// Two switches in a row end at the API-key fallback.
///
/// Let a first ChatGPT account hit its limit and be recorded, and let the
/// account switched to, a ChatGPT account as well, hit its limit and be
/// recorded next. If every other usable ChatGPT account was already blocked,
/// exhausted, or tried and limited, then the second switch answers exactly as
/// the fallback rule says: with the first API-key account that may be fallen
/// back to where the caller allows it and there is one, and otherwise with
/// nothing.
pub proof fn lemma_second_switch_falls_back(
    state: SwitchStateView,
    accounts: Seq<StoredAccount>,
    snapshots: Seq<StoredRateLimitSnapshot>,
    allow_api_key_fallback: bool,
    mode: AccountSwitchingMode,
    now: Timestamp,
    first: Seq<char>,
    first_mode: AuthMode,
    first_blocked_until: Option<Timestamp>,
    second: Seq<char>,
    second_mode: AuthMode,
    second_blocked_until: Option<Timestamp>,
    next: Option<Seq<char>>,
)
    requires
        first_mode.spec_is_chatgpt(),
        second_mode.spec_is_chatgpt(),
        forall|i: int|
            0 <= i < accounts.len() && (#[trigger] accounts[i]).is_usable_chatgpt()
                && accounts[i].id@ != first && accounts[i].id@ != second ==> is_unavailable(
                state,
                snapshots,
                now,
                accounts[i].id@,
            ),
        is_next_account(
            state.mark_limited(first, first_mode, first_blocked_until),
            accounts,
            snapshots,
            allow_api_key_fallback,
            mode,
            now,
            Some(first),
            Some(second),
        ),
        is_next_account(
            state.mark_limited(first, first_mode, first_blocked_until).mark_limited(
                second,
                second_mode,
                second_blocked_until,
            ),
            accounts,
            snapshots,
            allow_api_key_fallback,
            mode,
            now,
            Some(second),
            next,
        ),
    ensures
        ({
            let last = state.mark_limited(first, first_mode, first_blocked_until).mark_limited(
                second,
                second_mode,
                second_blocked_until,
            );
            if mode != AccountSwitchingMode::Manual && allow_api_key_fallback
                && some_api_key_choice(last, accounts, Some(second)) {
                next matches Some(id) && is_first_api_key_choice(last, accounts, Some(second), id)
            } else {
                next is None
            }
        }),
{
    let middle = state.mark_limited(first, first_mode, first_blocked_until);
    let last = middle.mark_limited(second, second_mode, second_blocked_until);
    assert forall|i: int|
        0 <= i < accounts.len() && (#[trigger] accounts[i]).is_usable_chatgpt() implies is_unavailable(
        last,
        snapshots,
        now,
        accounts[i].id@,
    ) by {
        let id = accounts[i].id@;
        if id != first && id != second {
            lemma_unavailable_is_kept(
                state,
                snapshots,
                now,
                id,
                first,
                first_mode,
                first_blocked_until,
            );
            lemma_unavailable_is_kept(
                middle,
                snapshots,
                now,
                id,
                second,
                second_mode,
                second_blocked_until,
            );
        }
    }
    lemma_fallback_once_chatgpt_is_used_up(
        last,
        accounts,
        snapshots,
        allow_api_key_fallback,
        mode,
        now,
        Some(second),
        next,
    );
}

} // verus!
