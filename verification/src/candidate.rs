//! Candidates and the order in which the selectors rank them.

use vstd::prelude::*;
use crate::account_id::{
    id_less, id_precedes, lemma_id_irreflexive, lemma_id_total, lemma_id_transitive,
};
use crate::timestamp::Timestamp;

verus! {

/// A candidate as a mathematical value.
pub struct CandidateView {
    pub id: Seq<char>,
    /// The usage by which the candidate is scored, in basis points.
    pub used_percent: int,
    /// The candidate's reset horizon, if one is known.
    pub reset_horizon: Option<Timestamp>,
}

/// An account that may be proposed, with what it is ranked by.
#[derive(Clone, Debug)]
pub struct UsageCandidate {
    pub id: String,
    /// The usage by which the candidate is scored, in basis points.
    pub used_percent: i64,
    /// The candidate's reset horizon, if one is known.
    pub reset_horizon: Option<Timestamp>,
}

impl View for UsageCandidate {
    type V = CandidateView;

    open spec fn view(&self) -> CandidateView {
        CandidateView {
            id: self.id@,
            used_percent: self.used_percent as int,
            reset_horizon: self.reset_horizon,
        }
    }
}

impl UsageCandidate {
    /// Makes a candidate from its identifier and what it is ranked by.
    pub fn new(id: String, used_percent: i64, reset_horizon: Option<Timestamp>) -> (candidate:
        UsageCandidate)
        ensures
            candidate.id == id,
            candidate.used_percent == used_percent,
            candidate.reset_horizon == reset_horizon,
    {
        UsageCandidate { id, used_percent, reset_horizon }
    }
}

/// Horizon `a` comes strictly sooner than `b`. A horizon that is not known
/// counts as infinitely late.
pub open spec fn horizon_sooner(a: Option<Timestamp>, b: Option<Timestamp>) -> bool {
    match (a, b) {
        (Some(x), Some(y)) => x.precedes(y),
        (Some(_), None) => true,
        (None, _) => false,
    }
}

/// Candidate `a` ranks strictly before `b`.
///
/// By usage, the lower usage ranks first and equal usage is decided by the
/// smaller identifier. By reset, the sooner horizon ranks first, and equal
/// horizons are decided by usage and then by identifier.
pub open spec fn ranks_before(by_reset: bool, a: CandidateView, b: CandidateView) -> bool {
    if by_reset && a.reset_horizon != b.reset_horizon {
        horizon_sooner(a.reset_horizon, b.reset_horizon)
    } else if a.used_percent != b.used_percent {
        a.used_percent < b.used_percent
    } else {
        id_precedes(a.id, b.id)
    }
}

/// No candidate ranks before itself.
pub proof fn lemma_ranks_irreflexive(by_reset: bool, a: CandidateView)
    ensures
        !ranks_before(by_reset, a, a),
{
    lemma_id_irreflexive(a.id);
}

/// The ranking is transitive.
pub proof fn lemma_ranks_transitive(
    by_reset: bool,
    a: CandidateView,
    b: CandidateView,
    c: CandidateView,
)
    requires
        ranks_before(by_reset, a, b),
        ranks_before(by_reset, b, c),
    ensures
        ranks_before(by_reset, a, c),
{
    lemma_id_irreflexive(a.id);
    if id_precedes(a.id, b.id) && id_precedes(b.id, c.id) {
        lemma_id_transitive(a.id, b.id, c.id);
    }
}

/// Of two candidates that are ranked alike in both directions, the
/// identifiers, the usage and, by reset, the horizons are the same.
pub proof fn lemma_ranks_total(by_reset: bool, a: CandidateView, b: CandidateView)
    requires
        !ranks_before(by_reset, a, b),
        !ranks_before(by_reset, b, a),
    ensures
        a.id == b.id,
        a.used_percent == b.used_percent,
        by_reset ==> a.reset_horizon == b.reset_horizon,
{
    lemma_id_total(a.id, b.id);
}

/// Tells whether horizon `a` comes strictly sooner than `b`.
pub(crate) fn horizon_is_sooner(a: Option<Timestamp>, b: Option<Timestamp>) -> (r: bool)
    ensures
        r == horizon_sooner(a, b),
{
    match (a, b) {
        (Some(x), Some(y)) => x.is_before(&y),
        (Some(_), None) => true,
        (None, _) => false,
    }
}

/// Tells whether a candidate with the first identifier, usage and horizon
/// ranks strictly before one with the second.
pub(crate) fn candidate_ranks_before(
    by_reset: bool,
    a_id: &str,
    a_used: i64,
    a_horizon: Option<Timestamp>,
    b_id: &str,
    b_used: i64,
    b_horizon: Option<Timestamp>,
) -> (r: bool)
    ensures
        r == ranks_before(
            by_reset,
            CandidateView { id: a_id@, used_percent: a_used as int, reset_horizon: a_horizon },
            CandidateView { id: b_id@, used_percent: b_used as int, reset_horizon: b_horizon },
        ),
{
    if by_reset && a_horizon != b_horizon {
        horizon_is_sooner(a_horizon, b_horizon)
    } else if a_used != b_used {
        a_used < b_used
    } else {
        id_less(a_id, b_id)
    }
}

} // verus!
