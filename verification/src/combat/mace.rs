//! Mace smash-attack timing. Fall distances are in thousandths of a block,
//! vertical velocity in thousandths of a block per tick, damage in
//! thousandths of a point.
use vstd::prelude::*;
use crate::rng::{SeededRng, draw_value};

verus! {

/// The Mace's item id.
pub const MACE_ITEM_ID: &'static str = "minecraft:mace";

/// The Mace's recharge, in milliseconds: vanilla's 0.6 attacks per second.
pub const MACE_COOLDOWN_MILLIS: u64 = 1667;

/// The fall (thousandths of a block) a hit needs for the smash bonus.
pub const SMASH_ATTACK_MIN_FALL: u64 = 1500;

/// Fewest ordinary hits between deliberate smash attempts.
pub const MACE_ATTEMPT_MIN_HITS: u32 = 3;

/// Most ordinary hits between deliberate smash attempts.
pub const MACE_ATTEMPT_MAX_HITS: u32 = 6;

/// Whether a swing right now lands as a smash: airborne, descending, and
/// far enough into the fall.
pub fn is_smash_attack_window(on_ground: bool, velocity_y_milli: i64, fall_distance: u64) -> (r: bool)
    ensures
        r == (!on_ground && velocity_y_milli < 0 && fall_distance >= SMASH_ATTACK_MIN_FALL),
{
    !on_ground && velocity_y_milli < 0 && fall_distance >= SMASH_ATTACK_MIN_FALL
}

/// The server's smash bonus for a fall of `fall` thousandths of a block:
/// 4 per block for the first 3 blocks, 2 per block for the next 5, 1 per
/// block beyond, nothing below the threshold.
pub open spec fn smash_bonus(fall: int) -> int {
    if fall < SMASH_ATTACK_MIN_FALL {
        0
    } else {
        let first = if fall < 3000 { fall } else { 3000 };
        let next = if fall <= 3000 { 0 } else if fall >= 8000 { 5000 } else { fall - 3000 };
        let rest = if fall <= 8000 { 0 } else { fall - 8000 };
        4 * first + 2 * next + rest
    }
}

/// The smash bonus damage, in thousandths of a point, for a fall of
/// `fall_distance` thousandths of a block.
pub fn smash_bonus_damage(fall_distance: u64) -> (damage: u64)
    requires
        fall_distance <= u64::MAX / 4,
    ensures
        damage == smash_bonus(fall_distance as int),
{
    if fall_distance < SMASH_ATTACK_MIN_FALL {
        return 0;
    }
    let first: u64 = if fall_distance < 3000 { fall_distance } else { 3000 };
    let next: u64 = if fall_distance <= 3000 {
        0
    } else if fall_distance >= 8000 {
        5000
    } else {
        fall_distance - 3000
    };
    let rest: u64 = if fall_distance <= 8000 { 0 } else { fall_distance - 8000 };
    4 * first + 2 * next + rest
}

/// The smash bonus never shrinks as the fall grows.
pub proof fn lemma_smash_bonus_is_monotonic(a: int, b: int)
    requires
        0 <= a <= b,
    ensures
        smash_bonus(a) <= smash_bonus(b),
{
}

/// How many ordinary hits the next deliberate smash attempt waits for: a
/// uniform draw in `MACE_ATTEMPT_MIN_HITS..=MACE_ATTEMPT_MAX_HITS`.
pub fn random_mace_attempt_hits(rng: &mut SeededRng) -> (hits: u32)
    ensures
        hits == MACE_ATTEMPT_MIN_HITS + draw_value(old(rng).state) % 4,
        MACE_ATTEMPT_MIN_HITS <= hits <= MACE_ATTEMPT_MAX_HITS,
        final(rng).state == crate::rng::next_state(old(rng).state),
{
    let span: u64 = (MACE_ATTEMPT_MAX_HITS - MACE_ATTEMPT_MIN_HITS) as u64;
    let draw = rng.below(span + 1);
    MACE_ATTEMPT_MIN_HITS + draw as u32
}

} // verus!
