//! Points in time, as the selectors compare them.

use vstd::prelude::*;

verus! {

/// An instant on the UTC time line: whole seconds since the Unix epoch and
/// the nanoseconds past that second.
///
/// Instants are ordered by `secs` first and `nanos` second. The nanosecond
/// part is not required to stay below one second, so an instant inside a
/// leap second keeps its place in the order.
#[derive(Clone, Copy, Debug, PartialEq, Eq, Structural)]
pub struct Timestamp {
    pub secs: i64,
    pub nanos: u32,
}

impl Timestamp {
    /// `self` lies strictly before `other`.
    pub open spec fn precedes(self, other: Timestamp) -> bool {
        self.secs < other.secs || (self.secs == other.secs && self.nanos < other.nanos)
    }

    /// The later of two instants; `a` when they are equal.
    pub open spec fn later(a: Timestamp, b: Timestamp) -> Timestamp {
        if a.precedes(b) {
            b
        } else {
            a
        }
    }

    /// The later of two optional instants, over the ones that are present.
    pub open spec fn later_of(a: Option<Timestamp>, b: Option<Timestamp>) -> Option<Timestamp> {
        match (a, b) {
            (Some(x), Some(y)) => Some(Timestamp::later(x, y)),
            (Some(x), None) => Some(x),
            (None, y) => y,
        }
    }

    /// Makes the instant `nanos` nanoseconds past the second `secs`.
    pub fn new(secs: i64, nanos: u32) -> (t: Timestamp)
        ensures
            t.secs == secs,
            t.nanos == nanos,
    {
        Timestamp { secs, nanos }
    }

    /// Tells whether `self` lies strictly after `other`.
    pub fn is_after(&self, other: &Timestamp) -> (r: bool)
        ensures
            r == other.precedes(*self),
    {
        self.secs > other.secs || (self.secs == other.secs && self.nanos > other.nanos)
    }

    /// Tells whether `self` lies strictly before `other`.
    pub fn is_before(&self, other: &Timestamp) -> (r: bool)
        ensures
            r == self.precedes(*other),
    {
        self.secs < other.secs || (self.secs == other.secs && self.nanos < other.nanos)
    }

    /// Returns the later of two optional instants, over the ones that are
    /// present, and `None` when both are absent.
    pub fn latest(a: Option<Timestamp>, b: Option<Timestamp>) -> (r: Option<Timestamp>)
        ensures
            r == Timestamp::later_of(a, b),
    {
        match (a, b) {
            (Some(x), Some(y)) => {
                if x.is_before(&y) {
                    Some(y)
                } else {
                    Some(x)
                }
            },
            (Some(x), None) => Some(x),
            (None, y) => y,
        }
    }
}

} // verus!
