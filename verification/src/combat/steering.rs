//! The walk directions the combat movement speaks, and which of them can
//! carry a sprint.
use vstd::prelude::*;

verus! {

/// The eight-way key combination a walk request uses, or standing still.
#[derive(Clone, Copy, Debug, Default, PartialEq, Eq, Structural)]
pub enum CombatWalk {
    #[default]
    Stand,
    Forward,
    Backward,
    Left,
    Right,
    ForwardLeft,
    ForwardRight,
    BackwardLeft,
    BackwardRight,
}

impl CombatWalk {
    /// Whether this direction has a forward component -- vanilla only
    /// sprints forward or forward-diagonally.
    pub fn allows_sprint(self) -> (r: bool)
        ensures
            r == (self == CombatWalk::Forward || self == CombatWalk::ForwardLeft || self == CombatWalk::ForwardRight),
    {
        matches!(self, CombatWalk::Forward | CombatWalk::ForwardLeft | CombatWalk::ForwardRight)
    }

    /// Whether any key is held.
    pub fn is_moving(self) -> (r: bool)
        ensures
            r == (self != CombatWalk::Stand),
    {
        !matches!(self, CombatWalk::Stand)
    }
}

} // verus!
