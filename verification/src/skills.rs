//! Skills that the agent can load.

use vstd::prelude::*;

verus! {

/// Where a skill was found.
#[derive(Clone, Copy, Debug, PartialEq, Eq, Structural)]
pub enum SkillScope {
    User,
    Repo,
    System,
}

/// A skill: what it is called, what it is for, where it lies and what it
/// says.
#[derive(Clone, Debug, PartialEq, Eq)]
pub struct Skill {
    pub name: String,
    pub description: String,
    /// The path of the skill's file, as text.
    pub path: String,
    pub scope: SkillScope,
    pub content: String,
}

} // verus!
