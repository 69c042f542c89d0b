//! Short-term prediction of where a target is going, and when it counts
//! as lost. Positions are in thousandths of a block, velocities in
//! thousandths of a block per tick (20 ticks a second), times in
//! milliseconds.
use vstd::prelude::*;

verus! {

/// How far ahead the movement prediction leads a moving target (0.25 s):
/// long enough to anticipate a sprint or a steady strafe, short enough
/// that a sudden turn does not send the bot lunging at empty space.
pub const PREDICTION_LEAD_MILLIS: u64 = 250;

/// The farthest the predicted point may sit from the target, per axis
/// (1.5 blocks), however fast it moves.
pub const PREDICTION_MAX_LEAD: i64 = 1500;

/// A target unseen for this long (3 s) is lost rather than chased on stale
/// data.
pub const STALE_OBSERVATION_MILLIS: u64 = 3000;

/// A point in the world.
#[derive(Clone, Copy, Debug, Default, PartialEq, Eq, Structural)]
pub struct Position {
    pub x: i64,
    pub y: i64,
    pub z: i64,
}

/// `n / d` rounded towards zero, for positive `d`.
pub open spec fn div_toward_zero(n: int, d: int) -> int {
    if n >= 0 { n / d } else { -((-n) / d) }
}

/// The lead along one axis for `velocity` over `lead_millis`: the distance
/// covered (velocity times 20 ticks a second times the lead), clamped to
/// [`PREDICTION_MAX_LEAD`] either way.
pub open spec fn axis_lead(velocity: i64, lead_millis: u64) -> int {
    let covered = div_toward_zero(velocity * 20 * lead_millis, 1000);
    if covered > PREDICTION_MAX_LEAD {
        PREDICTION_MAX_LEAD as int
    } else if covered < -PREDICTION_MAX_LEAD {
        -PREDICTION_MAX_LEAD
    } else {
        covered
    }
}

fn lead_along(velocity: i64, lead_millis: u64) -> (lead: i64)
    requires
        lead_millis <= u32::MAX,
    ensures
        lead == axis_lead(velocity, lead_millis),
{
    let scaled: i128 = (velocity as i128) * 20;
    assert(-0x10_0000_0000_0000_0000_0000_0000i128 <= scaled * (lead_millis as i128) <= 0x10_0000_0000_0000_0000_0000_0000i128) by (nonlinear_arith)
        requires
            -0x10_0000_0000_0000_0000 <= scaled <= 0x10_0000_0000_0000_0000,
            0 <= lead_millis <= 0xFFFF_FFFF,
    ;
    let product: i128 = scaled * (lead_millis as i128);
    let covered: i128 = if product >= 0 { product / 1000 } else { -((-product) / 1000) };
    if covered > PREDICTION_MAX_LEAD as i128 {
        PREDICTION_MAX_LEAD
    } else if covered < -(PREDICTION_MAX_LEAD as i128) {
        -PREDICTION_MAX_LEAD
    } else {
        covered as i64
    }
}

/// Where a target at `position` moving at `velocity` will be
/// `lead_millis` from now, for positioning the bot's feet. Horizontal
/// only: vertical velocity says nothing about where to walk.
pub fn predicted_position(position: Position, velocity: [i64; 3], lead_millis: u64) -> (p: Position)
    requires
        lead_millis <= u32::MAX,
        i64::MIN + PREDICTION_MAX_LEAD <= position.x <= i64::MAX - PREDICTION_MAX_LEAD,
        i64::MIN + PREDICTION_MAX_LEAD <= position.z <= i64::MAX - PREDICTION_MAX_LEAD,
    ensures
        p.x == position.x + axis_lead(velocity[0], lead_millis),
        p.y == position.y,
        p.z == position.z + axis_lead(velocity[2], lead_millis),
{
    let lead_x = lead_along(velocity[0], lead_millis);
    let lead_z = lead_along(velocity[2], lead_millis);
    Position { x: position.x + lead_x, y: position.y, z: position.z + lead_z }
}

/// Whether a target unseen for `millis_since_last_seen` is lost.
pub fn is_stale(millis_since_last_seen: u64) -> (r: bool)
    ensures
        r == (millis_since_last_seen >= STALE_OBSERVATION_MILLIS),
{
    millis_since_last_seen >= STALE_OBSERVATION_MILLIS
}

/// A stationary target is predicted exactly where it stands, and no
/// prediction strays more than [`PREDICTION_MAX_LEAD`] from the target on
/// either axis.
pub proof fn lemma_prediction_is_bounded(velocity: i64, lead_millis: u64)
    ensures
        velocity == 0 ==> axis_lead(velocity, lead_millis) == 0,
        -PREDICTION_MAX_LEAD <= axis_lead(velocity, lead_millis) <= PREDICTION_MAX_LEAD,
{
    if velocity == 0 {
        assert(velocity * 20 * lead_millis == 0) by (nonlinear_arith)
            requires
                velocity == 0,
        ;
    }
}

} // verus!
