//! The proactive selector: whether to move away from the current account
//! before it hits a limit.
//!
//! The selector reads the accounts and their snapshots and nothing else; the
//! switch state plays no part in it.

use vstd::prelude::*;
use crate::account::{account_has_credentials, AccountSwitchingMode, AuthMode, StoredAccount};
use crate::account_id::{
    id_less, id_precedes, lemma_id_irreflexive, lemma_id_transitive, str_view, string_view,
};
use crate::candidate::{ranks_before, CandidateView, UsageCandidate};
use crate::preferred::{
    candidate_views, even_usage_due, names_least, preferred_even_usage_account_id,
    preferred_reset_based_account_id, preferred_step45_account_id, step_rotation_due,
    step_threshold, usage_of, EVEN_USAGE_DELTA, USAGE_STEP,
};
use crate::snapshot_index::{candidate_of, scored_usage, snapshot_exhausted, SnapshotIndex};
use crate::text::text_equal;
use crate::timestamp::Timestamp;
use crate::usage::StoredRateLimitSnapshot;

verus! {

/// The account is a candidate for rebalancing: a ChatGPT account with usable
/// credentials whose snapshot does not report exhaustion.
pub open spec fn is_rebalance_candidate(
    snapshots: Seq<StoredRateLimitSnapshot>,
    account: StoredAccount,
) -> bool {
    account.is_usable_chatgpt() && !snapshot_exhausted(snapshots, account.id@)
}

/// `id` names a candidate for rebalancing.
pub open spec fn is_candidate_id(
    accounts: Seq<StoredAccount>,
    snapshots: Seq<StoredRateLimitSnapshot>,
    id: Seq<char>,
) -> bool {
    exists|i: int|
        0 <= i < accounts.len() && is_rebalance_candidate(snapshots, #[trigger] accounts[i])
            && accounts[i].id@ == id
}

/// There is a candidate for rebalancing.
pub open spec fn some_candidate(
    accounts: Seq<StoredAccount>,
    snapshots: Seq<StoredRateLimitSnapshot>,
) -> bool {
    exists|i: int|
        0 <= i < accounts.len() && is_rebalance_candidate(snapshots, #[trigger] accounts[i])
}

/// `id` names the least candidate: a candidate that no candidate ranks
/// before.
pub open spec fn is_least_candidate_id(
    accounts: Seq<StoredAccount>,
    snapshots: Seq<StoredRateLimitSnapshot>,
    by_reset: bool,
    id: Seq<char>,
) -> bool {
    &&& is_candidate_id(accounts, snapshots, id)
    &&& forall|j: int|
        0 <= j < accounts.len() && is_rebalance_candidate(snapshots, #[trigger] accounts[j])
            ==> !ranks_before(
            by_reset,
            candidate_of(snapshots, accounts[j].id@),
            candidate_of(snapshots, id),
        )
}

/// `id` names the first usable API-key account: none has a smaller
/// identifier.
pub open spec fn is_first_usable_api_key(accounts: Seq<StoredAccount>, id: Seq<char>) -> bool {
    &&& exists|i: int|
        0 <= i < accounts.len() && (#[trigger] accounts[i]).is_usable_api_key() && accounts[i].id@
            == id
    &&& forall|j: int|
        0 <= j < accounts.len() && (#[trigger] accounts[j]).is_usable_api_key() ==> !id_precedes(
            accounts[j].id@,
            id,
        )
}

/// There is a usable API-key account.
pub open spec fn some_usable_api_key(accounts: Seq<StoredAccount>) -> bool {
    exists|i: int| 0 <= i < accounts.len() && (#[trigger] accounts[i]).is_usable_api_key()
}

/// The mode asks for a move to the least candidate.
///
/// The manual and the on-limit mode never do. The even-usage mode does once
/// the current account is a candidate whose usage exceeds that of some other
/// candidate by more than ten percentage points. The step mode does when
/// there are candidates and the current account, where it is one of them,
/// has reached its next 45% step. The reset-based mode does whenever there
/// are candidates.
pub open spec fn rebalance_due(
    accounts: Seq<StoredAccount>,
    snapshots: Seq<StoredRateLimitSnapshot>,
    mode: AccountSwitchingMode,
    current: Option<Seq<char>>,
) -> bool {
    match mode {
        AccountSwitchingMode::Manual | AccountSwitchingMode::OnLimit => false,
        AccountSwitchingMode::EvenUsage => {
            &&& current matches Some(cur)
            &&& is_candidate_id(accounts, snapshots, cur)
            &&& exists|m: int|
                0 <= m < accounts.len() && is_rebalance_candidate(snapshots, #[trigger] accounts[m])
                    && accounts[m].id@ != cur && scored_usage(snapshots, cur) > scored_usage(
                    snapshots,
                    accounts[m].id@,
                ) + EVEN_USAGE_DELTA
        },
        AccountSwitchingMode::Step45 => {
            &&& some_candidate(accounts, snapshots)
            &&& current matches Some(cur) ==> (is_candidate_id(accounts, snapshots, cur)
                ==> scored_usage(snapshots, cur) >= step_threshold(
                scored_usage(snapshots, cur),
                USAGE_STEP as int,
            ))
        },
        AccountSwitchingMode::ResetBased => some_candidate(accounts, snapshots),
    }
}

/// `pick` is what the proactive selector proposes.
///
/// The manual and the on-limit mode propose nothing, whatever the accounts.
/// In the other modes, where the mode asks for a move, the proposal is the
/// least candidate, by usage or, in the reset-based mode, by reset horizon;
/// a least candidate that is the current account is no proposal. Where the
/// mode asks for none, the first usable API-key account is proposed if the
/// caller allows the fallback and there is no candidate at all. In every
/// other case nothing is proposed.
pub open spec fn is_preferred_account(
    accounts: Seq<StoredAccount>,
    snapshots: Seq<StoredRateLimitSnapshot>,
    mode: AccountSwitchingMode,
    allow_api_key_fallback: bool,
    current: Option<Seq<char>>,
    pick: Option<Seq<char>>,
) -> bool {
    let by_reset = mode == AccountSwitchingMode::ResetBased;
    if mode.spec_is_reactive_only() {
        pick is None
    } else if rebalance_due(accounts, snapshots, mode, current) {
        exists|best: Seq<char>|
            #[trigger] is_least_candidate_id(accounts, snapshots, by_reset, best) && pick == (
            if current == Some(best) {
                None
            } else {
                Some(best)
            })
    } else if allow_api_key_fallback && !some_candidate(accounts, snapshots)
        && some_usable_api_key(accounts) {
        pick matches Some(id) && is_first_usable_api_key(accounts, id)
    } else {
        pick is None
    }
}

/// The list names `id`.
pub open spec fn lists_id(candidates: Seq<CandidateView>, id: Seq<char>) -> bool {
    exists|k: int| 0 <= k < candidates.len() && (#[trigger] candidates[k]).id == id
}

/// Every entry of the list holds what its account is ranked by.
pub open spec fn is_faithful(
    candidates: Seq<CandidateView>,
    snapshots: Seq<StoredRateLimitSnapshot>,
) -> bool {
    forall|k: int|
        0 <= k < candidates.len() ==> #[trigger] candidates[k] == candidate_of(
            snapshots,
            candidates[k].id,
        )
}

/// The list holds the candidates for rebalancing, and nothing else.
pub open spec fn lists_candidates(
    candidates: Seq<CandidateView>,
    accounts: Seq<StoredAccount>,
    snapshots: Seq<StoredRateLimitSnapshot>,
) -> bool {
    &&& is_faithful(candidates, snapshots)
    &&& forall|k: int|
        0 <= k < candidates.len() ==> is_candidate_id(
            accounts,
            snapshots,
            (#[trigger] candidates[k]).id,
        )
    &&& forall|i: int|
        0 <= i < accounts.len() && is_rebalance_candidate(snapshots, #[trigger] accounts[i])
            ==> lists_id(candidates, accounts[i].id@)
}

/// In a faithful list, the usage found for an identifier is the usage that
/// the identifier is scored by.
proof fn lemma_usage_of_faithful(
    candidates: Seq<CandidateView>,
    snapshots: Seq<StoredRateLimitSnapshot>,
    id: Seq<char>,
)
    requires
        is_faithful(candidates, snapshots),
    ensures
        usage_of(candidates, id) == if lists_id(candidates, id) {
            Some(scored_usage(snapshots, id))
        } else {
            None
        },
    decreases candidates.len(),
{
    if candidates.len() > 0 {
        let rest = candidates.drop_first();
        assert forall|k: int| 0 <= k < rest.len() implies #[trigger] rest[k] == candidate_of(
            snapshots,
            rest[k].id,
        ) by {
            assert(rest[k] == candidates[k + 1]);
        }
        lemma_usage_of_faithful(rest, snapshots, id);
        if candidates.first().id == id {
            assert(candidates[0].id == id);
        } else if lists_id(rest, id) {
            let k = choose|k: int| 0 <= k < rest.len() && (#[trigger] rest[k]).id == id;
            assert(candidates[k + 1].id == id);
        } else if lists_id(candidates, id) {
            let k = choose|k: int| 0 <= k < candidates.len() && (#[trigger] candidates[k]).id == id;
            assert(rest[k - 1].id == id);
        }
    }
}

/// What the rules decide over the list of candidates is what the selector's
/// contract says over the accounts.
proof fn lemma_list_agrees_with_accounts(
    candidates: Seq<CandidateView>,
    accounts: Seq<StoredAccount>,
    snapshots: Seq<StoredRateLimitSnapshot>,
    current: Option<Seq<char>>,
)
    requires
        lists_candidates(candidates, accounts, snapshots),
    ensures
        candidates.len() > 0 <==> some_candidate(accounts, snapshots),
        even_usage_due(candidates, current, EVEN_USAGE_DELTA as int) <==> rebalance_due(
            accounts,
            snapshots,
            AccountSwitchingMode::EvenUsage,
            current,
        ),
        step_rotation_due(candidates, current, USAGE_STEP as int) <==> rebalance_due(
            accounts,
            snapshots,
            AccountSwitchingMode::Step45,
            current,
        ),
        forall|by_reset: bool, id: Seq<char>| #[trigger]
            names_least(by_reset, candidates, id) ==> is_least_candidate_id(
                accounts,
                snapshots,
                by_reset,
                id,
            ),
{
    if candidates.len() > 0 {
        assert(is_candidate_id(accounts, snapshots, candidates[0].id));
    }
    if some_candidate(accounts, snapshots) {
        let i = choose|i: int|
            0 <= i < accounts.len() && is_rebalance_candidate(snapshots, #[trigger] accounts[i]);
        assert(lists_id(candidates, accounts[i].id@));
    }
    if let Some(cur) = current {
        lemma_usage_of_faithful(candidates, snapshots, cur);
        if lists_id(candidates, cur) {
            let k = choose|k: int| 0 <= k < candidates.len() && (#[trigger] candidates[k]).id == cur;
            assert(is_candidate_id(accounts, snapshots, candidates[k].id));
        }
        if is_candidate_id(accounts, snapshots, cur) {
            let i = choose|i: int|
                0 <= i < accounts.len() && is_rebalance_candidate(snapshots, #[trigger] accounts[i])
                    && accounts[i].id@ == cur;
            assert(lists_id(candidates, accounts[i].id@));
        }
        let used = scored_usage(snapshots, cur);
        if even_usage_due(candidates, current, EVEN_USAGE_DELTA as int) {
            let m = choose|m: int|
                0 <= m < candidates.len() && (#[trigger] candidates[m]).id != cur && used
                    > candidates[m].used_percent + EVEN_USAGE_DELTA;
            assert(is_candidate_id(accounts, snapshots, candidates[m].id));
            let i = choose|i: int|
                0 <= i < accounts.len() && is_rebalance_candidate(snapshots, #[trigger] accounts[i])
                    && accounts[i].id@ == candidates[m].id;
            assert(accounts[i].id@ != cur);
        }
        if rebalance_due(accounts, snapshots, AccountSwitchingMode::EvenUsage, current) {
            let i = choose|i: int|
                0 <= i < accounts.len() && is_rebalance_candidate(snapshots, #[trigger] accounts[i])
                    && accounts[i].id@ != cur && used > scored_usage(snapshots, accounts[i].id@)
                    + EVEN_USAGE_DELTA;
            assert(lists_id(candidates, accounts[i].id@));
            let m = choose|m: int|
                0 <= m < candidates.len() && (#[trigger] candidates[m]).id == accounts[i].id@;
            assert(candidates[m].id != cur);
        }
    }
    assert forall|by_reset: bool, id: Seq<char>| #[trigger]
        names_least(by_reset, candidates, id) implies is_least_candidate_id(
        accounts,
        snapshots,
        by_reset,
        id,
    ) by {
        let k = choose|k: int|
            {
                &&& 0 <= k < candidates.len()
                &&& (#[trigger] candidates[k]).id == id
                &&& forall|j: int|
                    0 <= j < candidates.len() ==> !ranks_before(
                        by_reset,
                        #[trigger] candidates[j],
                        candidates[k],
                    )
            };
        assert(is_candidate_id(accounts, snapshots, candidates[k].id));
        assert forall|j: int|
            0 <= j < accounts.len() && is_rebalance_candidate(
                snapshots,
                #[trigger] accounts[j],
            ) implies !ranks_before(
            by_reset,
            candidate_of(snapshots, accounts[j].id@),
            candidate_of(snapshots, id),
        ) by {
            assert(lists_id(candidates, accounts[j].id@));
            let m = choose|m: int|
                0 <= m < candidates.len() && (#[trigger] candidates[m]).id == accounts[j].id@;
            assert(!ranks_before(by_reset, candidates[m], candidates[k]));
        }
    }
}

/// Lists the candidates for rebalancing, in the order of the accounts.
fn rebalance_candidates(accounts: &Vec<StoredAccount>, index: &SnapshotIndex) -> (candidates: Vec<
    UsageCandidate,
>)
    ensures
        lists_candidates(candidate_views(candidates@), accounts@, index.listing()),
{
    let mut candidates: Vec<UsageCandidate> = Vec::new();
    for i in 0..accounts.len()
        invariant
            is_faithful(candidate_views(candidates@), index.listing()),
            forall|k: int|
                0 <= k < candidates.len() ==> is_candidate_id(
                    accounts@,
                    index.listing(),
                    (#[trigger] candidate_views(candidates@)[k]).id,
                ),
            forall|j: int|
                0 <= j < i && is_rebalance_candidate(index.listing(), #[trigger] accounts[j])
                    ==> lists_id(candidate_views(candidates@), accounts[j].id@),
    {
        let account = &accounts[i];
        if account.mode.is_chatgpt() && account_has_credentials(account) && !index.exhausted(
            account.id.as_str(),
        ) {
            let ghost before = candidate_views(candidates@);
            let candidate = UsageCandidate::new(
                account.id.clone(),
                index.used_or_zero(account.id.as_str()),
                index.horizon(account.id.as_str()),
            );
            candidates.push(candidate);
            proof {
                let after = candidate_views(candidates@);
                assert(after =~= before.push(candidate@));
                assert(candidate@ == candidate_of(index.listing(), account.id@));
                assert(is_candidate_id(accounts@, index.listing(), account.id@));
                assert(after[after.len() - 1].id == account.id@);
                assert forall|j: int|
                    0 <= j < i + 1 && is_rebalance_candidate(
                        index.listing(),
                        #[trigger] accounts[j],
                    ) implies lists_id(after, accounts[j].id@) by {
                    if j < i {
                        let k = choose|k: int|
                            0 <= k < before.len() && (#[trigger] before[k]).id == accounts[j].id@;
                        assert(after[k].id == accounts[j].id@);
                    }
                }
            }
        }
    }
    candidates
}

/// Finds the first usable API-key account.
fn first_usable_api_key(accounts: &Vec<StoredAccount>) -> (r: Option<usize>)
    ensures
        match r {
            Some(b) => b < accounts.len() && is_first_usable_api_key(
                accounts@,
                accounts[b as int].id@,
            ),
            None => !some_usable_api_key(accounts@),
        },
{
    let mut best: Option<usize> = None;
    for i in 0..accounts.len()
        invariant
            match best {
                Some(b) => {
                    &&& b < i
                    &&& accounts[b as int].is_usable_api_key()
                    &&& forall|j: int|
                        0 <= j < i && (#[trigger] accounts[j]).is_usable_api_key() ==> !id_precedes(
                            accounts[j].id@,
                            accounts[b as int].id@,
                        )
                },
                None => forall|j: int| 0 <= j < i ==> !(#[trigger] accounts[j]).is_usable_api_key(),
            },
    {
        let account = &accounts[i];
        if account.mode == AuthMode::ApiKey && account_has_credentials(account) {
            let better = match best {
                Some(b) => id_less(account.id.as_str(), accounts[b].id.as_str()),
                None => true,
            };
            proof {
                lemma_id_irreflexive(account.id@);
                if let Some(b) = best {
                    if better {
                        assert forall|j: int|
                            0 <= j < i && (#[trigger] accounts[j]).is_usable_api_key()
                            implies !id_precedes(accounts[j].id@, account.id@) by {
                            if id_precedes(accounts[j].id@, account.id@) {
                                lemma_id_transitive(
                                    accounts[j].id@,
                                    account.id@,
                                    accounts[b as int].id@,
                                );
                            }
                        }
                    }
                }
            }
            if better {
                best = Some(i);
            }
        }
    }
    best
}

/// Proposes an account to move to before the current one hits a limit, or
/// nothing. In the manual and the on-limit mode nothing is ever proposed.
///
/// `accounts` and `snapshots` are the listings of the credential store and
/// of the usage store. The proposal depends on the usage and the reset
/// horizons that the snapshots hold, not on `now`.
pub fn select_preferred_account_id(
    accounts: &Vec<StoredAccount>,
    snapshots: &Vec<StoredRateLimitSnapshot>,
    mode: AccountSwitchingMode,
    allow_api_key_fallback: bool,
    now: Timestamp,
    current_account_id: Option<&str>,
) -> (pick: Option<String>)
    ensures
        is_preferred_account(
            accounts@,
            snapshots@,
            mode,
            allow_api_key_fallback,
            str_view(current_account_id),
            string_view(pick),
        ),
        pick matches Some(id) ==> Some(id@) != str_view(current_account_id) || !rebalance_due(
            accounts@,
            snapshots@,
            mode,
            str_view(current_account_id),
        ),
        mode.spec_is_reactive_only() ==> pick is None,
{
    if mode.is_reactive_only() {
        return None;
    }
    let index = SnapshotIndex::new(snapshots);
    let candidates = rebalance_candidates(accounts, &index);
    proof {
        lemma_list_agrees_with_accounts(
            candidate_views(candidates@),
            accounts@,
            snapshots@,
            str_view(current_account_id),
        );
    }
    let proposal = match mode {
        AccountSwitchingMode::Manual => None,
        AccountSwitchingMode::OnLimit => None,
        AccountSwitchingMode::EvenUsage => preferred_even_usage_account_id(
            &candidates,
            current_account_id,
            EVEN_USAGE_DELTA,
        ),
        AccountSwitchingMode::Step45 => preferred_step45_account_id(
            &candidates,
            current_account_id,
            USAGE_STEP,
        ),
        AccountSwitchingMode::ResetBased => preferred_reset_based_account_id(&candidates),
    };
    if let Some(best) = proposal {
        assert(is_least_candidate_id(
            accounts@,
            snapshots@,
            mode == AccountSwitchingMode::ResetBased,
            best@,
        ));
        let same = match current_account_id {
            Some(current) => text_equal(current, best.as_str()),
            None => false,
        };
        if same {
            return None;
        }
        return Some(best);
    }
    if !allow_api_key_fallback {
        return None;
    }
    if candidates.len() == 0 {
        return match first_usable_api_key(accounts) {
            Some(b) => Some(accounts[b].id.clone()),
            None => None,
        };
    }
    None
}

/// The selector's proposal is determined by what it is given: two proposals
/// for the same question are the same.
pub proof fn lemma_preferred_account_is_unique(
    accounts: Seq<StoredAccount>,
    snapshots: Seq<StoredRateLimitSnapshot>,
    mode: AccountSwitchingMode,
    allow_api_key_fallback: bool,
    current: Option<Seq<char>>,
    first: Option<Seq<char>>,
    second: Option<Seq<char>>,
)
    requires
        is_preferred_account(accounts, snapshots, mode, allow_api_key_fallback, current, first),
        is_preferred_account(accounts, snapshots, mode, allow_api_key_fallback, current, second),
    ensures
        first == second,
{
    let by_reset = mode == AccountSwitchingMode::ResetBased;
    if mode.spec_is_reactive_only() {
    } else if rebalance_due(accounts, snapshots, mode, current) {
        let a = choose|best: Seq<char>|
            #[trigger] is_least_candidate_id(accounts, snapshots, by_reset, best) && first == (
            if current == Some(best) {
                None
            } else {
                Some(best)
            });
        let b = choose|best: Seq<char>|
            #[trigger] is_least_candidate_id(accounts, snapshots, by_reset, best) && second == (
            if current == Some(best) {
                None
            } else {
                Some(best)
            });
        crate::candidate::lemma_ranks_total(
            by_reset,
            candidate_of(snapshots, a),
            candidate_of(snapshots, b),
        );
    } else if allow_api_key_fallback && !some_candidate(accounts, snapshots)
        && some_usable_api_key(accounts) {
        crate::account_id::lemma_id_total(first->Some_0, second->Some_0);
    }
}

/// In the step mode a current account that is a candidate is never moved
/// away from: a candidate's usage lies below 100%, and below 100% the next
/// step always lies ahead.
pub proof fn lemma_step_mode_keeps_a_current_candidate(
    accounts: Seq<StoredAccount>,
    snapshots: Seq<StoredRateLimitSnapshot>,
    allow_api_key_fallback: bool,
    current: Seq<char>,
    pick: Option<Seq<char>>,
)
    requires
        is_candidate_id(accounts, snapshots, current),
        is_preferred_account(
            accounts,
            snapshots,
            AccountSwitchingMode::Step45,
            allow_api_key_fallback,
            Some(current),
            pick,
        ),
    ensures
        pick is None,
{
    crate::preferred::lemma_step_reached_only_when_full(
        scored_usage(snapshots, current),
        USAGE_STEP as int,
    );
}

/// The manual and the on-limit mode never propose a switch: whatever the
/// accounts, the snapshots and the fallback setting, the proposal is nothing.
pub proof fn lemma_reactive_only_modes_propose_nothing(
    accounts: Seq<StoredAccount>,
    snapshots: Seq<StoredRateLimitSnapshot>,
    mode: AccountSwitchingMode,
    allow_api_key_fallback: bool,
    current: Option<Seq<char>>,
    pick: Option<Seq<char>>,
)
    requires
        mode == AccountSwitchingMode::Manual || mode == AccountSwitchingMode::OnLimit,
        is_preferred_account(accounts, snapshots, mode, allow_api_key_fallback, current, pick),
    ensures
        pick is None,
{
}

} // verus!
