//! PvP movement decisions: which way to walk given the distance to the
//! target and a strafe pattern. Distances are in thousandths of a block;
//! durations in milliseconds.
use vstd::prelude::*;
use crate::rng::{next_state, percent_roll, draw_value, SeededRng};
pub use crate::combat::steering::CombatWalk;

verus! {

/// Below this (1.2 blocks) the bot is effectively inside the target; it
/// stops advancing and circles.
pub const BACK_OFF_DISTANCE: u64 = 1200;

/// The top of the preferred band (1.9 blocks): at or inside it the bot
/// holds position and circles.
pub const PREFERRED_MAX_DISTANCE: u64 = 1900;

/// Past this (2.5 blocks) the bot closes the gap at a sprint.
pub const AGGRESSIVE_CLOSE_DISTANCE: u64 = 2500;

/// How often the strafe side flips before jitter, in milliseconds.
pub const STRAFE_FLIP_INTERVAL: u64 = 280;

/// The most jitter added to [`STRAFE_FLIP_INTERVAL`], in milliseconds.
pub const STRAFE_FLIP_JITTER: u64 = 150;

/// Strafe-hold duration right after landing a hit, in milliseconds.
pub const COMBO_STRAFE_FLIP_INTERVAL: u64 = 150;

/// Percent chance, at each flip, to plant the feet for one interval.
pub const STILL_CHANCE_PERCENT: u64 = 30;

/// Which way to strafe.
#[derive(Clone, Copy, Debug, Default, PartialEq, Eq, Structural)]
pub enum StrafeSide {
    #[default]
    Left,
    Right,
}

impl StrafeSide {
    /// The opposite side.
    pub fn flipped(self) -> (s: Self)
        ensures
            s != self,
    {
        match self {
            StrafeSide::Left => StrafeSide::Right,
            StrafeSide::Right => StrafeSide::Left,
        }
    }
}

/// What the strafing does this interval: a side, or a deliberate pause.
#[derive(Clone, Copy, Debug, Default, PartialEq, Eq, Structural)]
pub enum StrafePattern {
    #[default]
    Left,
    Right,
    Still,
}

/// The side a pattern strafes toward, `None` while still.
pub open spec fn pattern_side(p: StrafePattern) -> Option<StrafeSide> {
    match p {
        StrafePattern::Left => Some(StrafeSide::Left),
        StrafePattern::Right => Some(StrafeSide::Right),
        StrafePattern::Still => None,
    }
}

impl StrafePattern {
    /// The side this pattern strafes toward, `None` while still.
    pub fn side(self) -> (s: Option<StrafeSide>)
        ensures
            s == pattern_side(self),
    {
        match self {
            StrafePattern::Left => Some(StrafeSide::Left),
            StrafePattern::Right => Some(StrafeSide::Right),
            StrafePattern::Still => None,
        }
    }
}

/// The pattern after `current` when the flip timer elapses, given the
/// generator's state: from a side, pause with [`STILL_CHANCE_PERCENT`]
/// chance or switch sides; from a pause, always the left side.
pub open spec fn strafe_successor(current: StrafePattern, state: u64) -> StrafePattern {
    match current {
        StrafePattern::Still => StrafePattern::Left,
        StrafePattern::Left => if percent_roll(state) < STILL_CHANCE_PERCENT {
            StrafePattern::Still
        } else {
            StrafePattern::Right
        },
        StrafePattern::Right => if percent_roll(state) < STILL_CHANCE_PERCENT {
            StrafePattern::Still
        } else {
            StrafePattern::Left
        },
    }
}

/// Picks the next strafe pattern when the flip timer elapses. Never two
/// `Still` intervals in a row; an active-to-active transition always
/// flips sides. Draws from `rng` only when `current` is active.
pub fn next_strafe_pattern(current: StrafePattern, rng: &mut SeededRng) -> (next: StrafePattern)
    ensures
        next == strafe_successor(current, old(rng).state),
        current == StrafePattern::Still ==> final(rng).state == old(rng).state,
        current != StrafePattern::Still ==> final(rng).state == next_state(old(rng).state),
        current == StrafePattern::Still ==> next != StrafePattern::Still,
        current != StrafePattern::Still && next != StrafePattern::Still ==> next != current,
{
    let next_side = match current {
        StrafePattern::Left => StrafeSide::Left.flipped(),
        StrafePattern::Right => StrafeSide::Right.flipped(),
        StrafePattern::Still => StrafeSide::Left,
    };
    if current != StrafePattern::Still && rng.chance_percent(STILL_CHANCE_PERCENT) {
        return StrafePattern::Still;
    }
    match next_side {
        StrafeSide::Left => StrafePattern::Left,
        StrafeSide::Right => StrafePattern::Right,
    }
}

/// What the bot's feet should do this tick.
#[derive(Clone, Copy, Debug, Default, PartialEq, Eq, Structural)]
pub struct MovementDecision {
    pub forward: bool,
    pub backward: bool,
    pub strafe: Option<StrafeSide>,
    pub sprint: bool,
}

/// The combined direction of independent forward/backward/strafe keys;
/// forward wins over backward.
pub open spec fn walk_of(forward: bool, backward: bool, strafe: Option<StrafeSide>) -> CombatWalk {
    if forward {
        match strafe {
            Some(StrafeSide::Left) => CombatWalk::ForwardLeft,
            Some(StrafeSide::Right) => CombatWalk::ForwardRight,
            None => CombatWalk::Forward,
        }
    } else if backward {
        match strafe {
            Some(StrafeSide::Left) => CombatWalk::BackwardLeft,
            Some(StrafeSide::Right) => CombatWalk::BackwardRight,
            None => CombatWalk::Backward,
        }
    } else {
        match strafe {
            Some(StrafeSide::Left) => CombatWalk::Left,
            Some(StrafeSide::Right) => CombatWalk::Right,
            None => CombatWalk::Stand,
        }
    }
}

impl MovementDecision {
    /// Collapses the independent fields into one walk direction.
    pub fn walk_direction(self) -> (w: CombatWalk)
        ensures
            w == walk_of(self.forward, self.backward, self.strafe),
    {
        match (self.forward, self.backward, self.strafe) {
            (true, _, Some(StrafeSide::Left)) => CombatWalk::ForwardLeft,
            (true, _, Some(StrafeSide::Right)) => CombatWalk::ForwardRight,
            (true, _, None) => CombatWalk::Forward,
            (false, true, Some(StrafeSide::Left)) => CombatWalk::BackwardLeft,
            (false, true, Some(StrafeSide::Right)) => CombatWalk::BackwardRight,
            (false, true, None) => CombatWalk::Backward,
            (false, false, Some(StrafeSide::Left)) => CombatWalk::Left,
            (false, false, Some(StrafeSide::Right)) => CombatWalk::Right,
            (false, false, None) => CombatWalk::Stand,
        }
    }
}

/// The positioning policy at full aggression: close the gap at a sprint
/// past [`AGGRESSIVE_CLOSE_DISTANCE`], at a walk past
/// [`PREFERRED_MAX_DISTANCE`], otherwise hold and circle. Never backs off;
/// the pattern always supplies the strafe component.
pub fn decide_movement(distance_to_target: u64, pattern: StrafePattern) -> (d: MovementDecision)
    ensures
        d.forward == (distance_to_target > PREFERRED_MAX_DISTANCE),
        !d.backward,
        d.sprint == (distance_to_target > AGGRESSIVE_CLOSE_DISTANCE),
        d.strafe == pattern_side(pattern),
{
    MovementDecision {
        forward: distance_to_target > PREFERRED_MAX_DISTANCE,
        backward: false,
        strafe: pattern.side(),
        sprint: distance_to_target > AGGRESSIVE_CLOSE_DISTANCE,
    }
}

/// Whether to jump to clear an obstacle: walking forward, grounded, and
/// colliding horizontally.
pub fn should_jump_over_obstacle(moving_forward: bool, on_ground: bool, horizontal_collision: bool) -> (r: bool)
    ensures
        r == (moving_forward && on_ground && horizontal_collision),
{
    moving_forward && on_ground && horizontal_collision
}

/// Whether the strafe side is due to flip: it has been held for the whole
/// interval.
pub fn should_flip_strafe(held_for: u64, flip_interval: u64) -> (r: bool)
    ensures
        r == (held_for >= flip_interval),
{
    held_for >= flip_interval
}

/// The next strafe-hold duration: [`STRAFE_FLIP_INTERVAL`] plus a draw of
/// 0..=[`STRAFE_FLIP_JITTER`] milliseconds.
pub fn next_flip_interval(rng: &mut SeededRng) -> (interval: u64)
    ensures
        interval == STRAFE_FLIP_INTERVAL + draw_value(old(rng).state) % ((STRAFE_FLIP_JITTER + 1) as u64),
        STRAFE_FLIP_INTERVAL <= interval <= STRAFE_FLIP_INTERVAL + STRAFE_FLIP_JITTER,
        final(rng).state == next_state(old(rng).state),
{
    STRAFE_FLIP_INTERVAL + rng.below(STRAFE_FLIP_JITTER + 1)
}

/// How far past the engage range, in percent of it, a target must be
/// before the pathfinder takes control back. Without the gap a target
/// hovering at the boundary would flip the bot between two movement
/// systems every tick.
pub const HANDOFF_HYSTERESIS_PERCENT: u64 = 135;

/// Which movement system should be driving: the pathfinder for distant
/// targets, combat movement close in. While the pathfinder drives it keeps
/// control until the target is within `engage_range`; combat movement
/// keeps control until the target is more than
/// [`HANDOFF_HYSTERESIS_PERCENT`] of `engage_range` away.
pub fn pathfinder_should_drive(distance: u64, engage_range: u64, currently_driving: bool) -> (r: bool)
    ensures
        r == if currently_driving {
            distance > engage_range
        } else {
            distance * 100 > engage_range * HANDOFF_HYSTERESIS_PERCENT
        },
{
    if currently_driving {
        distance > engage_range
    } else {
        (distance as u128) * 100 > (engage_range as u128) * 135
    }
}

/// Outside the hysteresis band the answer does not depend on who is
/// driving: within the engage range combat movement always has control,
/// and beyond the band the pathfinder always has it.
pub proof fn lemma_handoff_outside_the_band(distance: u64, engage_range: u64)
    ensures
        distance <= engage_range ==> {
            &&& !(distance > engage_range)
            &&& !(distance * 100 > engage_range * HANDOFF_HYSTERESIS_PERCENT)
        },
        distance * 100 > engage_range * HANDOFF_HYSTERESIS_PERCENT ==> distance > engage_range,
{
}

/// The distances the combat movement controller works to, in thousandths
/// of a block.
#[derive(Clone, Copy, Debug, PartialEq, Eq, Structural)]
pub struct DistanceBand {
    /// Inside this the bot is standing in the target and circles out.
    pub too_close: u64,
    /// The near edge of the pocket the bot orbits in.
    pub preferred_min: u64,
    /// The far edge of that pocket; sprinting stops here.
    pub preferred_max: u64,
    /// Past this the bot closes the gap at full commitment.
    pub chase: u64,
}

impl Default for DistanceBand {
    fn default() -> (b: Self)
        ensures
            b == (DistanceBand { too_close: 1200, preferred_min: 1700, preferred_max: 1900, chase: 2500 }),
    {
        DistanceBand { too_close: 1200, preferred_min: 1700, preferred_max: 1900, chase: 2500 }
    }
}

/// How far inside the attack range sprinting stops (0.3 blocks), so the
/// last sliver into the target is walked, not sprinted.
pub const SPRINT_IN_MARGIN: u64 = 300;

/// The distance band for a configured attack range and preferred range.
pub open spec fn band_spec(attack_range: u64, preferred_range: u64) -> DistanceBand {
    let floor: u64 = if attack_range >= SPRINT_IN_MARGIN { (attack_range - SPRINT_IN_MARGIN) as u64 } else { 0 };
    let widened: u64 = if preferred_range >= floor { preferred_range } else { floor };
    let max: u64 = if widened <= attack_range { widened } else { attack_range };
    let beyond: u64 = if max + 500 > u64::MAX { u64::MAX } else { (max + 500) as u64 };
    DistanceBand {
        too_close: BACK_OFF_DISTANCE,
        preferred_min: if preferred_range <= max { preferred_range } else { max },
        preferred_max: max,
        chase: if beyond > AGGRESSIVE_CLOSE_DISTANCE { beyond } else { AGGRESSIVE_CLOSE_DISTANCE },
    }
}

/// The distance band for a configured attack range and preferred range:
/// sprinting stops at the preferred range, or [`SPRINT_IN_MARGIN`] inside
/// the attack range when that is further, never beyond the attack range;
/// the pocket's near edge is the preferred range, never past its far edge;
/// and full-commitment chasing starts half a block past the far edge,
/// never nearer than the default.
pub fn band_for(attack_range: u64, preferred_range: u64) -> (b: DistanceBand)
    ensures
        b == band_spec(attack_range, preferred_range),
{
    let defaults = DistanceBand::default();
    let floor = attack_range.saturating_sub(SPRINT_IN_MARGIN);
    let widened = if preferred_range >= floor { preferred_range } else { floor };
    let preferred_max = if widened <= attack_range { widened } else { attack_range };
    let beyond = preferred_max.saturating_add(500);
    DistanceBand {
        too_close: defaults.too_close,
        preferred_min: if preferred_range <= preferred_max { preferred_range } else { preferred_max },
        preferred_max,
        chase: if beyond > defaults.chase { beyond } else { defaults.chase },
    }
}

/// The band is always ordered: the pocket's near edge is not past its far
/// edge, the far edge not past the attack range, and chasing starts past
/// the far edge.
pub proof fn lemma_band_is_ordered(attack_range: u64, preferred_range: u64)
    requires
        attack_range <= u64::MAX - 500,
    ensures
        band_spec(attack_range, preferred_range).preferred_min <= band_spec(attack_range, preferred_range).preferred_max,
        band_spec(attack_range, preferred_range).preferred_max <= attack_range,
        band_spec(attack_range, preferred_range).chase > band_spec(attack_range, preferred_range).preferred_max,
{
}

} // verus!
