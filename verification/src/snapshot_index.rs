//! Finding the stored snapshot of an account.
//!
//! A usage store may list several records for one account. The one listed
//! last is the one in force.

use vstd::prelude::*;
use vstd::hash_map::StringHashMap;
use crate::candidate::CandidateView;
use crate::timestamp::Timestamp;
use crate::usage::{
    usage_is_exhausted, usage_reset_blocked_until, usage_used_percent, StoredRateLimitSnapshot,
};

verus! {

/// The record in force for `id`: the last one listed for it, if any.
pub open spec fn latest_snapshot(snapshots: Seq<StoredRateLimitSnapshot>, id: Seq<char>) -> Option<
    StoredRateLimitSnapshot,
>
    decreases snapshots.len(),
{
    if snapshots.len() == 0 {
        None
    } else if snapshots.last().account_id@ == id {
        Some(snapshots.last())
    } else {
        latest_snapshot(snapshots.drop_last(), id)
    }
}

/// The reset horizon that the record in force gives for `id`.
pub open spec fn snapshot_horizon(snapshots: Seq<StoredRateLimitSnapshot>, id: Seq<char>) -> Option<
    Timestamp,
> {
    match latest_snapshot(snapshots, id) {
        Some(s) => s.reset_horizon(),
        None => None,
    }
}

/// The record in force for `id` reports a window as used up.
pub open spec fn snapshot_exhausted(snapshots: Seq<StoredRateLimitSnapshot>, id: Seq<char>) -> bool {
    match latest_snapshot(snapshots, id) {
        Some(s) => s.exhausted(),
        None => false,
    }
}

/// The usage by which `id` is scored, in basis points: what the record in
/// force gives, and 0 where there is no record or no finite reading.
pub open spec fn scored_usage(snapshots: Seq<StoredRateLimitSnapshot>, id: Seq<char>) -> int {
    match latest_snapshot(snapshots, id) {
        Some(s) => match s.used_percent() {
            Some(used) => used as int,
            None => 0,
        },
        None => 0,
    }
}

/// What `id` is ranked by.
pub open spec fn candidate_of(snapshots: Seq<StoredRateLimitSnapshot>, id: Seq<char>)
    -> CandidateView {
    CandidateView {
        id,
        used_percent: scored_usage(snapshots, id),
        reset_horizon: snapshot_horizon(snapshots, id),
    }
}

/// A listing of snapshots together with a table from each account to its
/// record in force.
pub struct SnapshotIndex<'a> {
    snapshots: &'a Vec<StoredRateLimitSnapshot>,
    positions: StringHashMap<usize>,
}

impl<'a> SnapshotIndex<'a> {
    /// The listing that the index was built over.
    pub closed spec fn listing(&self) -> Seq<StoredRateLimitSnapshot> {
        self.snapshots@
    }

    /// `positions` holds, for exactly the accounts that `listing` has a
    /// record for, the place of the record in force.
    pub closed spec fn agrees(
        positions: Map<Seq<char>, usize>,
        listing: Seq<StoredRateLimitSnapshot>,
    ) -> bool {
        forall|id: Seq<char>|
            match #[trigger] latest_snapshot(listing, id) {
                Some(s) => positions.contains_key(id) && positions[id] < listing.len()
                    && listing[positions[id] as int] == s,
                None => !positions.contains_key(id),
            }
    }

    #[verifier::type_invariant]
    closed spec fn wf(&self) -> bool {
        SnapshotIndex::agrees(self.positions@, self.snapshots@)
    }

    /// Builds the index of `snapshots`.
    pub fn new(snapshots: &'a Vec<StoredRateLimitSnapshot>) -> (index: SnapshotIndex<'a>)
        ensures
            index.listing() == snapshots@,
    {
        let mut positions: StringHashMap<usize> = StringHashMap::new();
        for i in 0..snapshots.len()
            invariant
                SnapshotIndex::agrees(positions@, snapshots@.take(i as int)),
        {
            let ghost before = positions@;
            positions.insert(snapshots[i].account_id.clone(), i);
            proof {
                let prefix = snapshots@.take(i as int);
                let grown = snapshots@.take(i + 1);
                assert(grown.drop_last() =~= prefix);
                assert(grown.last() == snapshots@[i as int]);
                assert forall|id: Seq<char>|
                    match #[trigger] latest_snapshot(grown, id) {
                        Some(s) => positions@.contains_key(id) && positions@[id] < grown.len()
                            && grown[positions@[id] as int] == s,
                        None => !positions@.contains_key(id),
                    } by {
                    if snapshots@[i as int].account_id@ != id {
                        assert(latest_snapshot(grown, id) == latest_snapshot(prefix, id));
                        assert(positions@.contains_key(id) == before.contains_key(id));
                    }
                }
            }
        }
        proof {
            assert(snapshots@.take(snapshots.len() as int) =~= snapshots@);
        }
        SnapshotIndex { snapshots, positions }
    }

    /// Returns the record in force for `id`.
    pub fn get(&self, id: &str) -> (r: Option<&StoredRateLimitSnapshot>)
        ensures
            match r {
                Some(s) => latest_snapshot(self.listing(), id@) == Some(*s),
                None => latest_snapshot(self.listing(), id@) is None,
            },
    {
        proof {
            use_type_invariant(self);
        }
        match self.positions.get(id) {
            Some(position) => {
                assert(latest_snapshot(self.snapshots@, id@) is Some);
                Some(&self.snapshots[*position])
            },
            None => {
                assert(latest_snapshot(self.snapshots@, id@) is None);
                None
            },
        }
    }

    /// Returns the reset horizon that the record in force gives for `id`.
    pub fn horizon(&self, id: &str) -> (r: Option<Timestamp>)
        ensures
            r == snapshot_horizon(self.listing(), id@),
    {
        match self.get(id) {
            Some(s) => usage_reset_blocked_until(s),
            None => None,
        }
    }

    /// Tells whether the record in force for `id` reports a window as used
    /// up.
    pub fn exhausted(&self, id: &str) -> (r: bool)
        ensures
            r == snapshot_exhausted(self.listing(), id@),
    {
        match self.get(id) {
            Some(s) => usage_is_exhausted(s),
            None => false,
        }
    }

    /// Returns the usage by which `id` is scored, in basis points.
    pub fn used_or_zero(&self, id: &str) -> (r: i64)
        ensures
            r == scored_usage(self.listing(), id@),
    {
        match self.get(id) {
            Some(s) => match usage_used_percent(s) {
                Some(used) => used,
                None => 0,
            },
            None => 0,
        }
    }
}

} // verus!
