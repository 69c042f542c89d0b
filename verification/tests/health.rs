use magic_bot::combat::defense::{should_raise_shield, SHIELD_RANGE};
use magic_bot::combat::health::{mode_for_health, wants_food, CombatMode};

// Health is in hundredths of a hit point (8.0 HP is 800); distances are in
// thousandths of a block.

#[test]
fn eats_below_the_threshold_and_not_at_or_above_it() {
    // The default threshold is four hearts.
    assert!(wants_food(790, 800));
    assert!(!wants_food(800, 800));
    assert!(!wants_food(2000, 800));
    assert!(wants_food(50, 800));
}

#[test]
fn full_health_is_aggressive() {
    assert_eq!(mode_for_health(2000, 800), CombatMode::Aggressive);
    assert_eq!(mode_for_health(1201, 800), CombatMode::Aggressive);
}

#[test]
fn moderate_health_is_balanced() {
    assert_eq!(mode_for_health(1200, 800), CombatMode::Balanced);
    assert_eq!(mode_for_health(800, 800), CombatMode::Balanced);
}

#[test]
fn low_health_is_defensive() {
    assert_eq!(mode_for_health(799, 800), CombatMode::Defensive);
    assert_eq!(mode_for_health(400, 800), CombatMode::Defensive);
}

#[test]
fn very_low_health_is_critical() {
    assert_eq!(mode_for_health(399, 800), CombatMode::Critical);
    assert_eq!(mode_for_health(0, 800), CombatMode::Critical);
}

#[test]
fn a_configured_heal_threshold_moves_the_defensive_boundary() {
    assert_eq!(
        mode_for_health(1000, 1200),
        CombatMode::Defensive,
        "with a higher heal_threshold, 10 HP should already be defensive"
    );
    assert_eq!(
        mode_for_health(1000, 500),
        CombatMode::Balanced,
        "with a lower heal_threshold, 10 HP should not yet be defensive"
    );
}

#[test]
fn losing_health_never_makes_the_mode_bolder() {
    let order = |m: CombatMode| match m {
        CombatMode::Aggressive => 0,
        CombatMode::Balanced => 1,
        CombatMode::Defensive => 2,
        CombatMode::Critical => 3,
    };
    let mut previous = order(mode_for_health(2000, 800));
    for health in (0..2000).rev() {
        let now = order(mode_for_health(health, 800));
        assert!(now >= previous);
        previous = now;
    }
}

#[test]
fn raises_when_defensive_or_critical_and_in_range() {
    assert!(should_raise_shield(CombatMode::Defensive, 2000, false, true));
    assert!(should_raise_shield(CombatMode::Critical, 2000, false, true));
}

#[test]
fn stays_down_when_aggressive_or_balanced_and_nothing_is_approaching_and_attack_is_ready() {
    assert!(!should_raise_shield(CombatMode::Aggressive, 2000, false, true));
    assert!(!should_raise_shield(CombatMode::Balanced, 2000, false, true));
}

#[test]
fn raises_for_an_approaching_target_even_at_full_health() {
    assert!(should_raise_shield(CombatMode::Aggressive, 2000, true, true));
}

#[test]
fn never_raises_outside_shield_range_regardless_of_mode_or_approach() {
    assert!(!should_raise_shield(CombatMode::Critical, SHIELD_RANGE + 100, true, true));
}

#[test]
fn raises_when_attack_is_not_ready_even_at_full_health_and_not_approaching() {
    assert!(should_raise_shield(CombatMode::Aggressive, 2000, false, false));
}

#[test]
fn never_raises_outside_shield_range_even_when_attack_is_not_ready() {
    assert!(!should_raise_shield(CombatMode::Critical, SHIELD_RANGE + 100, true, false));
}

#[test]
fn the_shield_range_edge_is_still_in_range() {
    assert!(should_raise_shield(CombatMode::Critical, SHIELD_RANGE, false, true));
}
