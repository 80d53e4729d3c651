//! The switch state: which accounts were tried and which are known to be
//! limited, for one run of the agent.
//!
//! The state lives in memory only and changes through `mark_limited` alone.

use vstd::prelude::*;
use vstd::hash_map::StringHashMap;
use vstd::hash_set::StringHashSet;
use crate::account::AuthMode;
use crate::timestamp::Timestamp;

verus! {

/// The switch state as a mathematical value.
pub struct SwitchStateView {
    /// The accounts attempted since the state was created.
    pub tried: Set<Seq<char>>,
    /// The ChatGPT accounts confirmed as limited.
    pub limited_chatgpt: Set<Seq<char>>,
    /// For each account the latest block expiry that was reported for it.
    pub blocked_until: Map<Seq<char>, Timestamp>,
}

impl SwitchStateView {
    /// The state before anything was recorded.
    pub open spec fn empty() -> SwitchStateView {
        SwitchStateView {
            tried: Set::empty(),
            limited_chatgpt: Set::empty(),
            blocked_until: Map::empty(),
        }
    }

    /// The block expiry recorded for `id`, if there is one.
    pub open spec fn horizon(self, id: Seq<char>) -> Option<Timestamp> {
        if self.blocked_until.contains_key(id) {
            Some(self.blocked_until[id])
        } else {
            None
        }
    }

    /// The state after `id` was reported as limited. The account counts as
    /// tried; a ChatGPT account counts as limited; a reported expiry replaces
    /// the recorded one only where it is strictly later.
    pub open spec fn mark_limited(
        self,
        id: Seq<char>,
        mode: AuthMode,
        blocked_until: Option<Timestamp>,
    ) -> SwitchStateView {
        SwitchStateView {
            tried: self.tried.insert(id),
            limited_chatgpt: if mode.spec_is_chatgpt() {
                self.limited_chatgpt.insert(id)
            } else {
                self.limited_chatgpt
            },
            blocked_until: match blocked_until {
                Some(until) => if self.blocked_until.contains_key(id)
                    && !self.blocked_until[id].precedes(until) {
                    self.blocked_until
                } else {
                    self.blocked_until.insert(id, until)
                },
                None => self.blocked_until,
            },
        }
    }
}

/// The record of tried and limited accounts that the caller's retry loop
/// owns.
pub struct RateLimitSwitchState {
    tried_accounts: StringHashSet,
    limited_chatgpt_accounts: StringHashSet,
    blocked_until: StringHashMap<Timestamp>,
}

impl View for RateLimitSwitchState {
    type V = SwitchStateView;

    closed spec fn view(&self) -> SwitchStateView {
        SwitchStateView {
            tried: self.tried_accounts@,
            limited_chatgpt: self.limited_chatgpt_accounts@,
            blocked_until: self.blocked_until@,
        }
    }
}

impl Default for RateLimitSwitchState {
    /// Creates a state in which no account was tried.
    fn default() -> (state: RateLimitSwitchState)
        ensures
            state@ == SwitchStateView::empty(),
    {
        RateLimitSwitchState::new()
    }
}

impl RateLimitSwitchState {
    /// Creates a state in which no account was tried.
    pub fn new() -> (state: RateLimitSwitchState)
        ensures
            state@ == SwitchStateView::empty(),
    {
        RateLimitSwitchState {
            tried_accounts: StringHashSet::new(),
            limited_chatgpt_accounts: StringHashSet::new(),
            blocked_until: StringHashMap::new(),
        }
    }

    /// Records that `account_id` ran into a limit.
    ///
    /// The recorded expiry of an account never moves back: a call with an
    /// earlier or equal expiry, or with none, leaves it as it was.
    pub fn mark_limited(
        &mut self,
        account_id: &str,
        mode: AuthMode,
        blocked_until: Option<Timestamp>,
    )
        ensures
            final(self)@ == old(self)@.mark_limited(account_id@, mode, blocked_until),
            forall|id: Seq<char>| #[trigger]
                old(self)@.blocked_until.contains_key(id) ==> final(self)@.blocked_until.contains_key(
                    id,
                ) && !final(self)@.blocked_until[id].precedes(old(self)@.blocked_until[id]),
    {
        self.tried_accounts.insert(account_id.to_owned());
        if mode.is_chatgpt() {
            self.limited_chatgpt_accounts.insert(account_id.to_owned());
        }
        if let Some(until) = blocked_until {
            let widen = match self.blocked_until.get(account_id) {
                Some(existing) => until.is_after(existing),
                None => true,
            };
            if widen {
                self.blocked_until.insert(account_id.to_owned(), until);
            }
        }
    }

    /// Returns the block expiry recorded for `account_id`.
    pub fn blocked_until(&self, account_id: &str) -> (r: Option<Timestamp>)
        ensures
            r == self@.horizon(account_id@),
    {
        match self.blocked_until.get(account_id) {
            Some(until) => Some(*until),
            None => None,
        }
    }

    /// Tells whether `account_id` was tried.
    pub fn has_tried(&self, account_id: &str) -> (r: bool)
        ensures
            r == self@.tried.contains(account_id@),
    {
        self.tried_accounts.contains(account_id)
    }

    /// Tells whether `account_id` is a ChatGPT account confirmed as limited.
    pub fn is_limited_chatgpt(&self, account_id: &str) -> (r: bool)
        ensures
            r == self@.limited_chatgpt.contains(account_id@),
    {
        self.limited_chatgpt_accounts.contains(account_id)
    }
}

impl SwitchStateView {
    /// Every account that is recorded as limited or as blocked is recorded
    /// as tried.
    pub open spec fn is_consistent(self) -> bool {
        &&& self.limited_chatgpt.subset_of(self.tried)
        &&& self.blocked_until.dom().subset_of(self.tried)
    }
}

/// A state that changes through `mark_limited` alone stays consistent: the
/// empty state is, and a report keeps it so.
pub proof fn lemma_mark_limited_keeps_consistency(
    state: SwitchStateView,
    id: Seq<char>,
    mode: AuthMode,
    blocked_until: Option<Timestamp>,
)
    ensures
        SwitchStateView::empty().is_consistent(),
        state.is_consistent() ==> state.mark_limited(id, mode, blocked_until).is_consistent(),
{
}

/// Reporting the same limit twice changes nothing the second time.
pub proof fn lemma_mark_limited_idempotent(
    state: SwitchStateView,
    id: Seq<char>,
    mode: AuthMode,
    blocked_until: Option<Timestamp>,
)
    ensures
        state.mark_limited(id, mode, blocked_until).mark_limited(id, mode, blocked_until)
            == state.mark_limited(id, mode, blocked_until),
{
    let once = state.mark_limited(id, mode, blocked_until);
    let twice = once.mark_limited(id, mode, blocked_until);
    assert(twice.tried =~= once.tried);
    assert(twice.limited_chatgpt =~= once.limited_chatgpt);
    assert(twice.blocked_until =~= once.blocked_until);
}

/// A later report never lowers a recorded expiry: whatever is reported for
/// whichever account, every expiry recorded before is still recorded and has
/// not moved back; a report that is not later than the recorded expiry of its
/// account leaves all expiries as they were.
pub proof fn lemma_mark_limited_monotonic(
    state: SwitchStateView,
    id: Seq<char>,
    mode: AuthMode,
    blocked_until: Option<Timestamp>,
    other: Seq<char>,
)
    ensures
        state.horizon(other) matches Some(before) ==> (state.mark_limited(
            id,
            mode,
            blocked_until,
        ).horizon(other) matches Some(after) && !after.precedes(before)),
        (state.horizon(id) matches Some(before) && blocked_until matches Some(until)
            && !before.precedes(until)) ==> state.mark_limited(id, mode, blocked_until).blocked_until
            == state.blocked_until,
{
}

} // verus!
