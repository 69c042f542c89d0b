//! The bot's own shield use, as distinct from breaking the target's shield.
//! Distances are in thousandths of a block.
//!
//! Two of the three triggers are proactive (a cautious health mode, a
//! target closing in fast); the third is the bot's own attack cooldown:
//! while it cannot yet answer a hit it holds guard, and it drops the shield
//! the moment it can swing.
use vstd::prelude::*;
use crate::combat::health::CombatMode;

verus! {

/// Blocking is pointless beyond melee reach (3 blocks).
pub const SHIELD_RANGE: u64 = 3000;

/// Whether the bot should hold its shield up right now: only within
/// [`SHIELD_RANGE`], and then when its mode is `Defensive` or `Critical`,
/// when the target is approaching, or when its own attack is not ready.
pub fn should_raise_shield(
    mode: CombatMode,
    distance_to_target: u64,
    target_approaching: bool,
    attack_ready: bool,
) -> (r: bool)
    ensures
        r == (distance_to_target <= SHIELD_RANGE && (mode == CombatMode::Defensive || mode == CombatMode::Critical
            || target_approaching || !attack_ready)),
{
    if distance_to_target > SHIELD_RANGE {
        return false;
    }
    match mode {
        CombatMode::Defensive | CombatMode::Critical => true,
        _ => target_approaching || !attack_ready,
    }
}

} // verus!
