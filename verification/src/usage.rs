//! The usage model: what a stored rate-limit snapshot says about an account.
//!
//! Every function here is total. Data that is absent or corrupt never counts
//! against an account: it is neither exhausted nor scored.

use vstd::prelude::*;
use crate::timestamp::Timestamp;

verus! {

/// One hundred percent, in basis points.
pub const FULL_USAGE: i64 = 10_000;

/// The used share of a rate-limit window as the provider reported it.
///
/// A finite reading is held in whole basis points, hundredths of a
/// percentage point, so that `Finite(10_000)` is 100%; what lies between two
/// basis points counts as the lower one. A reading that was not a finite
/// number is kept as `NonFinite` and never takes part in a comparison.
#[derive(Clone, Copy, Debug, PartialEq, Eq, Structural)]
pub enum UsageReading {
    Finite(i64),
    NonFinite,
}

/// The usage of both windows at one point in time.
#[derive(Clone, Copy, Debug, PartialEq, Eq, Structural)]
pub struct RateLimitSnapshot {
    /// The short window.
    pub primary_used_percent: UsageReading,
    /// The long window.
    pub secondary_used_percent: UsageReading,
}

impl RateLimitSnapshot {
    /// Both readings are finite numbers.
    pub open spec fn is_finite(self) -> bool {
        self.primary_used_percent is Finite && self.secondary_used_percent is Finite
    }

    /// The larger of the two readings, in basis points. Meaningful only for
    /// a finite snapshot.
    pub open spec fn peak(self) -> int {
        let p = self.primary_used_percent->Finite_0;
        let s = self.secondary_used_percent->Finite_0;
        if p >= s {
            p as int
        } else {
            s as int
        }
    }
}

/// What the usage store keeps for one account: the last snapshot, if any, and
/// when each window resets next, if known.
#[derive(Clone, Debug)]
pub struct StoredRateLimitSnapshot {
    pub account_id: String,
    pub snapshot: Option<RateLimitSnapshot>,
    pub primary_next_reset_at: Option<Timestamp>,
    pub secondary_next_reset_at: Option<Timestamp>,
}

impl StoredRateLimitSnapshot {
    /// Either window is used up: both readings are finite and the larger one
    /// is at least 100%.
    pub open spec fn exhausted(self) -> bool {
        match self.snapshot {
            Some(s) => s.is_finite() && s.peak() >= FULL_USAGE,
            None => false,
        }
    }

    /// The usage by which the account is scored: the larger reading of a
    /// finite snapshot, in basis points, and nothing otherwise.
    pub open spec fn used_percent(self) -> Option<i64> {
        match self.snapshot {
            Some(s) => if s.is_finite() {
                Some(s.peak() as i64)
            } else {
                None
            },
            None => None,
        }
    }

    /// The reset horizon: the later of the two windows' next resets, over the
    /// ones that are known.
    pub open spec fn reset_horizon(self) -> Option<Timestamp> {
        Timestamp::later_of(self.primary_next_reset_at, self.secondary_next_reset_at)
    }

    /// Makes a record from what the usage store lists for an account.
    pub fn new(
        account_id: String,
        snapshot: Option<RateLimitSnapshot>,
        primary_next_reset_at: Option<Timestamp>,
        secondary_next_reset_at: Option<Timestamp>,
    ) -> (stored: StoredRateLimitSnapshot)
        ensures
            stored.account_id == account_id,
            stored.snapshot == snapshot,
            stored.primary_next_reset_at == primary_next_reset_at,
            stored.secondary_next_reset_at == secondary_next_reset_at,
    {
        StoredRateLimitSnapshot {
            account_id,
            snapshot,
            primary_next_reset_at,
            secondary_next_reset_at,
        }
    }
}

/// An account is blocked while its horizon is known and lies strictly after
/// `now`.
pub open spec fn blocked_at(now: Timestamp, blocked_until: Option<Timestamp>) -> bool {
    match blocked_until {
        Some(until) => now.precedes(until),
        None => false,
    }
}

/// Returns the snapshot's reset horizon.
pub fn usage_reset_blocked_until(snapshot: &StoredRateLimitSnapshot) -> (r: Option<Timestamp>)
    ensures
        r == snapshot.reset_horizon(),
{
    Timestamp::latest(snapshot.primary_next_reset_at, snapshot.secondary_next_reset_at)
}

/// Returns the usage by which the account is scored, in basis points.
pub fn usage_used_percent(snapshot: &StoredRateLimitSnapshot) -> (r: Option<i64>)
    ensures
        r == snapshot.used_percent(),
        (snapshot.snapshot matches Some(s) && !s.is_finite()) ==> r is None,
{
    match snapshot.snapshot {
        Some(RateLimitSnapshot {
            primary_used_percent: UsageReading::Finite(primary),
            secondary_used_percent: UsageReading::Finite(secondary),
        }) => {
            if primary >= secondary {
                Some(primary)
            } else {
                Some(secondary)
            }
        },
        _ => None,
    }
}

/// Tells whether the snapshot reports a window as used up.
pub fn usage_is_exhausted(snapshot: &StoredRateLimitSnapshot) -> (r: bool)
    ensures
        r == snapshot.exhausted(),
        (snapshot.snapshot matches Some(s) && !s.is_finite()) ==> !r,
{
    match snapshot.snapshot {
        Some(RateLimitSnapshot {
            primary_used_percent: UsageReading::Finite(primary),
            secondary_used_percent: UsageReading::Finite(secondary),
        }) => primary >= FULL_USAGE || secondary >= FULL_USAGE,
        _ => false,
    }
}

/// Tells whether a horizon still blocks at `now`.
pub fn is_blocked(now: Timestamp, blocked_until: Option<Timestamp>) -> (r: bool)
    ensures
        r == blocked_at(now, blocked_until),
{
    match blocked_until {
        Some(until) => until.is_after(&now),
        None => false,
    }
}

} // verus!
