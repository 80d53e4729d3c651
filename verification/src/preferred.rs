//! The three rebalancing rules of the proactive selector, each over a list of
//! candidates.

use vstd::prelude::*;
use vstd::arithmetic::div_mod::{
    lemma_fundamental_div_mod, lemma_fundamental_div_mod_converse, lemma_mod_bound,
};
use crate::account_id::str_view;
use crate::candidate::{
    candidate_ranks_before, lemma_ranks_irreflexive, lemma_ranks_transitive, ranks_before,
    CandidateView, UsageCandidate,
};
use crate::text::text_equal;
use crate::usage::FULL_USAGE;

verus! {

/// By how much the current account's usage must exceed the lowest usage
/// among the others before usage is evened out: ten percentage points, in
/// basis points.
pub const EVEN_USAGE_DELTA: i64 = 1_000;

/// The width of a usage step: 45 percentage points, in basis points.
pub const USAGE_STEP: i64 = 4_500;

/// The candidates as mathematical values, in the order of the list.
pub open spec fn candidate_views(candidates: Seq<UsageCandidate>) -> Seq<CandidateView> {
    candidates.map_values(|c: UsageCandidate| c@)
}

/// The usage of the first candidate named `id`, if the list has one.
pub open spec fn usage_of(candidates: Seq<CandidateView>, id: Seq<char>) -> Option<int>
    decreases candidates.len(),
{
    if candidates.len() == 0 {
        None
    } else if candidates.first().id == id {
        Some(candidates.first().used_percent)
    } else {
        usage_of(candidates.drop_first(), id)
    }
}

/// `id` names a least candidate of the list: a candidate that no candidate
/// ranks before.
pub open spec fn names_least(by_reset: bool, candidates: Seq<CandidateView>, id: Seq<char>)
    -> bool {
    exists|k: int|
        {
            &&& 0 <= k < candidates.len()
            &&& (#[trigger] candidates[k]).id == id
            &&& forall|j: int|
                0 <= j < candidates.len() ==> !ranks_before(
                    by_reset,
                    #[trigger] candidates[j],
                    candidates[k],
                )
        }
}

/// The next usage step above `used`: the smallest multiple of `step` that is
/// strictly greater, and 100% where that would lie above 100%.
pub open spec fn step_threshold(used: int, step: int) -> int {
    let next = (used / step + 1) * step;
    if next > FULL_USAGE {
        FULL_USAGE as int
    } else {
        next
    }
}

/// Usage is to be evened out: the current account is a candidate, and some
/// other candidate's usage lies below the current account's by more than
/// `delta`.
pub open spec fn even_usage_due(
    candidates: Seq<CandidateView>,
    current: Option<Seq<char>>,
    delta: int,
) -> bool {
    &&& current matches Some(cur)
    &&& usage_of(candidates, cur) matches Some(current_used)
    &&& exists|m: int|
        0 <= m < candidates.len() && (#[trigger] candidates[m]).id != cur && current_used
            > candidates[m].used_percent + delta
}

/// A rotation by steps is due: there are candidates, and the current
/// account, where it is one of them, has reached its next usage step.
pub open spec fn step_rotation_due(
    candidates: Seq<CandidateView>,
    current: Option<Seq<char>>,
    step: int,
) -> bool {
    &&& candidates.len() > 0
    &&& current matches Some(cur) ==> (usage_of(candidates, cur) matches Some(current_used)
        ==> current_used >= step_threshold(current_used, step))
}

/// The smallest multiple of a positive step that is strictly greater than
/// `used` lies at most one step above it.
pub proof fn lemma_next_step_bounds(used: int, step: int)
    requires
        step > 0,
    ensures
        used < (used / step + 1) * step <= used + step,
        (used / step + 1) * step == used - used % step + step,
{
    assert((used / step + 1) * step == (used / step) * step + step) by (nonlinear_arith);
    assert(used == step * (used / step) + used % step && 0 <= used % step < step) by (nonlinear_arith)
        requires
            step > 0,
    ;
    assert((used / step) * step == step * (used / step)) by (nonlinear_arith);
}

/// An account reaches its next usage step only at full usage: below 100%
/// the next step always lies ahead of it.
pub proof fn lemma_step_reached_only_when_full(used: int, step: int)
    requires
        step > 0,
    ensures
        used >= step_threshold(used, step) <==> used >= FULL_USAGE,
{
    lemma_next_step_bounds(used, step);
}

/// Returns the usage of the first candidate named `id`.
fn find_usage(candidates: &Vec<UsageCandidate>, id: &str) -> (r: Option<i64>)
    ensures
        match r {
            Some(used) => usage_of(candidate_views(candidates@), id@) == Some(used as int),
            None => usage_of(candidate_views(candidates@), id@) is None,
        },
{
    let ghost views = candidate_views(candidates@);
    proof {
        assert(views.skip(0) =~= views);
    }
    for i in 0..candidates.len()
        invariant
            views == candidate_views(candidates@),
            usage_of(views, id@) == usage_of(views.skip(i as int), id@),
    {
        proof {
            assert(views.skip(i as int).first() == views[i as int]);
            assert(views.skip(i as int).drop_first() =~= views.skip(i + 1));
        }
        if text_equal(candidates[i].id.as_str(), id) {
            return Some(candidates[i].used_percent);
        }
    }
    None
}

/// Finds a least candidate of the list.
fn least_candidate(by_reset: bool, candidates: &Vec<UsageCandidate>) -> (r: Option<usize>)
    ensures
        match r {
            Some(b) => {
                &&& b < candidates.len()
                &&& forall|j: int|
                    0 <= j < candidates.len() ==> !ranks_before(
                        by_reset,
                        #[trigger] candidate_views(candidates@)[j],
                        candidate_views(candidates@)[b as int],
                    )
            },
            None => candidates.len() == 0,
        },
{
    let ghost views = candidate_views(candidates@);
    let mut best: Option<usize> = None;
    for i in 0..candidates.len()
        invariant
            views == candidate_views(candidates@),
            match best {
                Some(b) => {
                    &&& b < i
                    &&& forall|j: int|
                        0 <= j < i ==> !ranks_before(by_reset, #[trigger] views[j], views[b as int])
                },
                None => i == 0,
            },
    {
        let candidate = &candidates[i];
        let better = match best {
            Some(b) => candidate_ranks_before(
                by_reset,
                candidate.id.as_str(),
                candidate.used_percent,
                candidate.reset_horizon,
                candidates[b].id.as_str(),
                candidates[b].used_percent,
                candidates[b].reset_horizon,
            ),
            None => true,
        };
        proof {
            lemma_ranks_irreflexive(by_reset, views[i as int]);
            if let Some(b) = best {
                if better {
                    assert forall|j: int| 0 <= j < i implies !ranks_before(
                        by_reset,
                        #[trigger] views[j],
                        views[i as int],
                    ) by {
                        if ranks_before(by_reset, views[j], views[i as int]) {
                            lemma_ranks_transitive(
                                by_reset,
                                views[j],
                                views[i as int],
                                views[b as int],
                            );
                        }
                    }
                }
            }
        }
        if better {
            best = Some(i);
        }
    }
    best
}

/// Returns the identifier of a least candidate, if the list has any.
fn least_candidate_id(by_reset: bool, candidates: &Vec<UsageCandidate>) -> (r: Option<String>)
    ensures
        match r {
            Some(id) => names_least(by_reset, candidate_views(candidates@), id@),
            None => candidates.len() == 0,
        },
{
    match least_candidate(by_reset, candidates) {
        Some(b) => {
            assert(candidate_views(candidates@)[b as int].id == candidates[b as int].id@);
            Some(candidates[b].id.clone())
        },
        None => None,
    }
}

/// Tells whether some candidate other than `current` has a usage that lies
/// below `current_used` by more than `delta`.
fn some_other_far_below(
    candidates: &Vec<UsageCandidate>,
    current: &str,
    current_used: i64,
    delta: i64,
) -> (r: bool)
    ensures
        r == exists|m: int|
            0 <= m < candidates.len() && (#[trigger] candidate_views(candidates@)[m]).id
                != current@ && current_used > candidate_views(candidates@)[m].used_percent + delta,
{
    let ghost views = candidate_views(candidates@);
    let mut lowest: Option<i64> = None;
    for i in 0..candidates.len()
        invariant
            views == candidate_views(candidates@),
            match lowest {
                Some(low) => {
                    &&& exists|m: int|
                        0 <= m < i && (#[trigger] views[m]).id != current@ && views[m].used_percent
                            == low
                    &&& forall|m: int|
                        0 <= m < i && (#[trigger] views[m]).id != current@ ==> low
                            <= views[m].used_percent
                },
                None => forall|m: int| 0 <= m < i ==> (#[trigger] views[m]).id == current@,
            },
    {
        let candidate = &candidates[i];
        assert(views[i as int] == candidate@);
        if !text_equal(candidate.id.as_str(), current) {
            let lower = match lowest {
                Some(low) => candidate.used_percent < low,
                None => true,
            };
            if lower {
                lowest = Some(candidate.used_percent);
            }
        }
    }
    match lowest {
        Some(low) => (current_used as i128) > (low as i128) + (delta as i128),
        None => false,
    }
}

/// Returns the next usage step above `used`.
pub fn next_usage_step(used: i64, step: i64) -> (r: i64)
    requires
        step > 0,
    ensures
        r == step_threshold(used as int, step as int),
{
    proof {
        lemma_next_step_bounds(used as int, step as int);
    }
    let past: i128 = if used >= 0 {
        (used % step) as i128
    } else {
        // The remainder of a negative usage, counted up from the step below.
        let short: i64 = (-(used + 1)) % step;
        proof {
            let below = -(used + 1);
            lemma_fundamental_div_mod(below, step as int);
            lemma_mod_bound(below, step as int);
            let quotient = -(below / (step as int)) - 1;
            assert(used == quotient * step + (step - 1 - short)) by (nonlinear_arith)
                requires
                    below == step * (below / (step as int)) + short,
                    below == -(used + 1),
                    quotient == -(below / (step as int)) - 1,
            ;
            lemma_fundamental_div_mod_converse(
                used as int,
                step as int,
                quotient,
                step - 1 - short,
            );
        }
        (step as i128) - 1 - (short as i128)
    };
    let next: i128 = (used as i128) - past + (step as i128);
    if next > FULL_USAGE as i128 {
        FULL_USAGE
    } else {
        next as i64
    }
}

/// Evens out usage: proposes the least-used candidate once the current
/// account's usage exceeds the lowest usage among the other candidates by
/// more than `delta_percent`.
///
/// Nothing is proposed when no current account is named, when it is not a
/// candidate, or when it is the only one.
pub fn preferred_even_usage_account_id(
    candidates: &Vec<UsageCandidate>,
    current_account_id: Option<&str>,
    delta_percent: i64,
) -> (pick: Option<String>)
    ensures
        match pick {
            Some(id) => even_usage_due(
                candidate_views(candidates@),
                str_view(current_account_id),
                delta_percent as int,
            ) && names_least(false, candidate_views(candidates@), id@),
            None => !even_usage_due(
                candidate_views(candidates@),
                str_view(current_account_id),
                delta_percent as int,
            ),
        },
{
    let current = match current_account_id {
        Some(current) => current,
        None => {
            return None;
        },
    };
    let current_used = match find_usage(candidates, current) {
        Some(used) => used,
        None => {
            return None;
        },
    };
    if !some_other_far_below(candidates, current, current_used, delta_percent) {
        return None;
    }
    least_candidate_id(false, candidates)
}

/// Rotates by usage steps: proposes the least-used candidate once the
/// current account has reached its next step of `step_percent`.
///
/// Where no current account is named, or it is not a candidate, the
/// least-used candidate is proposed at once.
pub fn preferred_step45_account_id(
    candidates: &Vec<UsageCandidate>,
    current_account_id: Option<&str>,
    step_percent: i64,
) -> (pick: Option<String>)
    requires
        step_percent > 0,
    ensures
        match pick {
            Some(id) => step_rotation_due(
                candidate_views(candidates@),
                str_view(current_account_id),
                step_percent as int,
            ) && names_least(false, candidate_views(candidates@), id@),
            None => !step_rotation_due(
                candidate_views(candidates@),
                str_view(current_account_id),
                step_percent as int,
            ),
        },
{
    if let Some(current) = current_account_id {
        if let Some(current_used) = find_usage(candidates, current) {
            if current_used < next_usage_step(current_used, step_percent) {
                return None;
            }
        }
    }
    least_candidate_id(false, candidates)
}

/// Proposes the candidate whose limits reset soonest; among candidates with
/// the same horizon the least used, and among those the one with the
/// smallest identifier.
pub fn preferred_reset_based_account_id(candidates: &Vec<UsageCandidate>) -> (pick: Option<String>)
    ensures
        match pick {
            Some(id) => names_least(true, candidate_views(candidates@), id@),
            None => candidates.len() == 0,
        },
{
    least_candidate_id(true, candidates)
}

} // verus!
