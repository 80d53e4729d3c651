//! The steps of the onboarding.

use vstd::prelude::*;

verus! {

/// Whether a step of the onboarding is shown.
#[derive(Clone, Copy, Debug, PartialEq, Eq, Structural)]
pub enum StepState {
    Hidden,
    InProgress,
    Complete,
}

/// Returns the state of the welcome step: it is hidden from a user who is
/// logged in, and complete at once for one who is not.
pub fn welcome_step_state(is_logged_in: bool) -> (state: StepState)
    ensures
        state == if is_logged_in {
            StepState::Hidden
        } else {
            StepState::Complete
        },
{
    if is_logged_in {
        StepState::Hidden
    } else {
        StepState::Complete
    }
}

} // verus!
