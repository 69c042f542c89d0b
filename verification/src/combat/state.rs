//! The kill task's lifecycle and the phase of the fight within it.
use vstd::prelude::*;

verus! {

/// Lifecycle of a `#kill <player>` task: `Created` before it starts,
/// `Running` for the whole fight, then how it ended.
#[derive(Clone, Copy, Debug, Default, PartialEq, Eq, Structural)]
pub enum KillState {
    #[default]
    Created,
    Running,
    Completed,
    Failed,
    Cancelled,
}

/// What the fight is doing this tick, within `KillState::Running`
/// (reported for status and logs).
#[derive(Clone, Copy, Debug, Default, PartialEq, Eq, Structural)]
pub enum CombatPhase {
    #[default]
    Idle,
    AcquireTarget,
    Engage,
    Strafe,
    CritPrep,
    Attack,
    ShieldBreak,
    Defensive,
    Heal,
    Chase,
    Reposition,
    Finish,
    Abort,
}

impl KillState {
    /// Whether the task has ended, one way or another.
    pub fn is_finished(self) -> (r: bool)
        ensures
            r == (self == KillState::Completed || self == KillState::Failed || self == KillState::Cancelled),
    {
        match self {
            KillState::Completed | KillState::Failed | KillState::Cancelled => true,
            _ => false,
        }
    }
}

} // verus!
