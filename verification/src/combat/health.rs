//! The fighting mode the bot's own health calls for. Health is in
//! hundredths of a hit point (the vanilla 0-20 scale times 100).
use vstd::prelude::*;

verus! {

/// How hard the bot presses the fight at its current health. No mode stops
/// fighting: the low ones block more and eat while still attacking.
#[derive(Clone, Copy, Debug, Default, PartialEq, Eq, Structural)]
pub enum CombatMode {
    /// Full pressure: chase, crit, combo.
    #[default]
    Aggressive,
    /// Fewer needless jumps, readier to block.
    Balanced,
    /// Eats mid-fight and blocks whenever the shield is free.
    Defensive,
    /// Eats at the first chance and blocks whenever in range.
    Critical,
}

/// Below this (4 HP) the mode is `Critical`, whatever the heal threshold.
pub const CRITICAL_HEALTH: u32 = 400;

/// Up to this (12 HP), above the heal threshold, the mode is `Balanced`;
/// above it, `Aggressive`.
pub const BALANCED_UPPER_HEALTH: u32 = 1200;

/// The mode for `health` with the configured `heal_threshold`.
pub open spec fn mode_spec(health: u32, heal_threshold: u32) -> CombatMode {
    if health < CRITICAL_HEALTH {
        CombatMode::Critical
    } else if health < heal_threshold {
        CombatMode::Defensive
    } else if health <= BALANCED_UPPER_HEALTH {
        CombatMode::Balanced
    } else {
        CombatMode::Aggressive
    }
}

/// The mode for `health` with the configured `heal_threshold` (both in
/// hundredths of a hit point).
pub fn mode_for_health(health: u32, heal_threshold: u32) -> (m: CombatMode)
    ensures
        m == mode_spec(health, heal_threshold),
{
    if health < CRITICAL_HEALTH {
        CombatMode::Critical
    } else if health < heal_threshold {
        CombatMode::Defensive
    } else if health <= BALANCED_UPPER_HEALTH {
        CombatMode::Balanced
    } else {
        CombatMode::Aggressive
    }
}

/// Whether the bot is hurt enough to eat: strictly below the threshold.
pub fn wants_food(health: u32, heal_threshold: u32) -> (r: bool)
    ensures
        r == (health < heal_threshold),
{
    health < heal_threshold
}

/// Losing health never makes the bot more aggressive: a lower health gives
/// a mode at least as cautious.
pub proof fn lemma_mode_is_monotonic(lower: u32, higher: u32, heal_threshold: u32)
    requires
        lower <= higher,
    ensures
        caution(mode_spec(lower, heal_threshold)) >= caution(mode_spec(higher, heal_threshold)),
{
}

/// How cautious a mode is, `Aggressive` least.
pub open spec fn caution(m: CombatMode) -> int {
    match m {
        CombatMode::Aggressive => 0,
        CombatMode::Balanced => 1,
        CombatMode::Defensive => 2,
        CombatMode::Critical => 3,
    }
}

/// The bot wants food exactly when its mode is `Defensive` or `Critical`
/// with a heal threshold above the critical line -- below the threshold is
/// both "eat" and "defend".
pub proof fn lemma_eating_means_defending(health: u32, heal_threshold: u32)
    requires
        heal_threshold >= CRITICAL_HEALTH,
    ensures
        (health < heal_threshold) == (caution(mode_spec(health, heal_threshold)) >= 2),
{
}

} // verus!
