//! The arguments of the plan tool.

use vstd::prelude::*;

verus! {

/// How far a step of the plan has come.
#[derive(Clone, Copy, Debug, PartialEq, Eq, Structural)]
pub enum StepStatus {
    Pending,
    InProgress,
    Completed,
}

/// One step of the plan.
#[derive(Clone, Debug, PartialEq, Eq)]
pub struct PlanItemArg {
    pub step: String,
    pub status: StepStatus,
}

/// A whole plan, as the tool is called with it.
#[derive(Clone, Debug, PartialEq, Eq)]
pub struct UpdatePlanArgs {
    /// The field that older clients send.
    pub name: Option<String>,
    /// A note that newer clients send; where it is present it takes the
    /// place of `name`.
    pub explanation: Option<String>,
    pub plan: Vec<PlanItemArg>,
}

} // verus!
