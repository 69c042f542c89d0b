//! The key decisions of one combat-movement tick, taken once the steering
//! vector has been projected onto a walk direction: whether a hazard
//! overrides the walk, whether to sprint, and whether to jump. Durations
//! are in milliseconds.
use vstd::prelude::*;
use crate::combat::steering::CombatWalk;

verus! {

/// How long sprint stays released after a hit (the "w-tap"): the keys stay
/// down, only the sprint flag drops.
pub const SPRINT_RESET: u64 = 120;

/// Minimum gap between jumps, so obstacle clearing never becomes
/// continuous hopping.
pub const JUMP_COOLDOWN: u64 = 350;

/// The keys to hold this tick.
#[derive(Clone, Copy, Debug, Default, PartialEq, Eq, Structural)]
pub struct MovementCommand {
    pub walk: CombatWalk,
    pub sprint: bool,
    pub jump: bool,
    pub sneak: bool,
}

/// What one tick knows besides the projected walk direction.
#[derive(Clone, Copy, Debug, PartialEq, Eq, Structural)]
pub struct KeyInputs {
    /// The walk direction the steering vector projects to.
    pub projected: CombatWalk,
    /// Continuing ahead runs off a drop or into something lethal.
    pub blocked_ahead: bool,
    /// A one-block step up is in the way.
    pub step_ahead: bool,
    pub on_ground: bool,
    pub horizontal_collision: bool,
    /// The gap to the target shrank since the previous tick (or there was
    /// no previous tick).
    pub closing: bool,
    /// The target is beyond the far edge of the preferred distance band.
    pub beyond_preferred: bool,
    pub sprint_reset_enabled: bool,
    /// Milliseconds since the last landed hit, if any.
    pub since_attack: Option<u64>,
    /// Milliseconds since the last jump, if any.
    pub since_jump: Option<u64>,
}

/// Whether `since` (milliseconds since an event, if it happened) is still
/// within `window`.
pub open spec fn within(since: Option<u64>, window: u64) -> bool {
    since is Some && since->0 < window
}

/// The jump rule: grounded and moving, off cooldown, not at a hazard, and
/// either a step is ahead or the bot walked into something while failing
/// to close the gap.
pub open spec fn jump_spec(
    on_ground: bool,
    walk: CombatWalk,
    since_jump: Option<u64>,
    blocked_ahead: bool,
    step_ahead: bool,
    horizontal_collision: bool,
    closing: bool,
) -> bool {
    &&& on_ground
    &&& walk != CombatWalk::Stand
    &&& !within(since_jump, JUMP_COOLDOWN)
    &&& !blocked_ahead
    &&& (step_ahead || (horizontal_collision && !closing))
}

/// Whether a walk direction has a forward component.
pub open spec fn forward_walk(walk: CombatWalk) -> bool {
    walk == CombatWalk::Forward || walk == CombatWalk::ForwardLeft || walk == CombatWalk::ForwardRight
}

/// The walk after a hazard ahead is applied: a forward walk into a ledge
/// or lava is released outright.
pub open spec fn walk_spec(projected: CombatWalk, blocked_ahead: bool) -> CombatWalk {
    if blocked_ahead && forward_walk(projected) {
        CombatWalk::Stand
    } else {
        projected
    }
}

/// Whether to jump this tick.
pub fn should_jump(
    on_ground: bool,
    walk: CombatWalk,
    since_jump: Option<u64>,
    blocked_ahead: bool,
    step_ahead: bool,
    horizontal_collision: bool,
    closing: bool,
) -> (r: bool)
    ensures
        r == jump_spec(on_ground, walk, since_jump, blocked_ahead, step_ahead, horizontal_collision, closing),
{
    if !on_ground || !walk.is_moving() {
        return false;
    }
    if let Some(since) = since_jump {
        if since < JUMP_COOLDOWN {
            return false;
        }
    }
    if blocked_ahead {
        return false;
    }
    step_ahead || (horizontal_collision && !closing)
}

/// The keys for one tick: the projected walk (released when a hazard is
/// directly ahead of a forward walk), sprint when walking forward beyond
/// the preferred band with no hazard ahead and no sprint reset running,
/// the jump rule, and never sneak.
pub fn movement_keys(inputs: KeyInputs) -> (c: MovementCommand)
    ensures
        c.walk == walk_spec(inputs.projected, inputs.blocked_ahead),
        c.sprint == (forward_walk(c.walk) && !(inputs.sprint_reset_enabled && within(inputs.since_attack, SPRINT_RESET))
            && !inputs.blocked_ahead && inputs.beyond_preferred),
        c.jump == jump_spec(inputs.on_ground, c.walk, inputs.since_jump, inputs.blocked_ahead, inputs.step_ahead,
            inputs.horizontal_collision, inputs.closing),
        !c.sneak,
{
    let walk = if inputs.blocked_ahead && inputs.projected.allows_sprint() {
        CombatWalk::Stand
    } else {
        inputs.projected
    };
    let sprint_reset = inputs.sprint_reset_enabled && match inputs.since_attack {
        Some(since) => since < SPRINT_RESET,
        None => false,
    };
    let sprint = walk.allows_sprint() && !sprint_reset && !inputs.blocked_ahead && inputs.beyond_preferred;
    let jump = should_jump(
        inputs.on_ground,
        walk,
        inputs.since_jump,
        inputs.blocked_ahead,
        inputs.step_ahead,
        inputs.horizontal_collision,
        inputs.closing,
    );
    MovementCommand { walk, sprint, jump, sneak: false }
}

/// A hazard directly ahead is never walked into: whatever the steering
/// asks for, the resulting keys neither walk forward nor sprint nor jump.
pub proof fn lemma_hazard_ahead_stops_the_bot(inputs: KeyInputs)
    requires
        inputs.blocked_ahead,
    ensures
        !forward_walk(walk_spec(inputs.projected, inputs.blocked_ahead)),
        !jump_spec(inputs.on_ground, walk_spec(inputs.projected, inputs.blocked_ahead), inputs.since_jump,
            inputs.blocked_ahead, inputs.step_ahead, inputs.horizontal_collision, inputs.closing),
{
}

} // verus!
