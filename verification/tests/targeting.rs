use magic_bot::combat::eating::{
    eating_step, food_placement, wind_charge_placement, EatingStep, HandPlacement, COMBAT_FOOD_HOTBAR_INDEX,
    COMBAT_FOOD_PROTOCOL_SLOT, COMBAT_WIND_CHARGE_HOTBAR_INDEX, COMBAT_WIND_CHARGE_PROTOCOL_SLOT,
};
use magic_bot::combat::targeting::{
    is_stale, predicted_position, Position, PREDICTION_LEAD_MILLIS, PREDICTION_MAX_LEAD, STALE_OBSERVATION_MILLIS,
};

// Positions are in thousandths of a block, velocities in thousandths of a
// block per tick, times in milliseconds.

fn position(x: i64, y: i64, z: i64) -> Position {
    Position { x, y, z }
}

#[test]
fn a_stationary_target_predicts_to_its_own_position() {
    let p = position(10_000, 64_000, 10_000);
    let predicted = predicted_position(p, [0, 0, 0], PREDICTION_LEAD_MILLIS);
    assert_eq!(predicted.x, p.x);
    assert_eq!(predicted.z, p.z);
}

#[test]
fn a_moving_target_predicts_ahead_in_its_direction_of_travel() {
    let p = position(0, 64_000, 0);
    // Sprinting is roughly 0.28 blocks/tick horizontally.
    let predicted = predicted_position(p, [280, 0, 0], PREDICTION_LEAD_MILLIS);
    assert!(predicted.x > p.x);
    assert_eq!(predicted.x, 1400);
    assert_eq!(predicted.z, p.z);
}

#[test]
fn vertical_velocity_never_affects_the_predicted_position() {
    let p = position(0, 64_000, 0);
    let predicted = predicted_position(p, [0, -5000, 0], PREDICTION_LEAD_MILLIS);
    assert_eq!(predicted.y, p.y);
}

#[test]
fn an_extreme_velocity_spike_is_clamped_rather_than_chased_forever() {
    let p = position(0, 64_000, 0);
    let predicted = predicted_position(p, [500_000, 0, -500_000], PREDICTION_LEAD_MILLIS);
    assert_eq!(predicted.x - p.x, PREDICTION_MAX_LEAD);
    assert_eq!(predicted.z - p.z, -PREDICTION_MAX_LEAD);
}

#[test]
fn staleness_uses_the_configured_threshold() {
    assert!(!is_stale(0));
    assert!(!is_stale(STALE_OBSERVATION_MILLIS - 100));
    assert!(is_stale(STALE_OBSERVATION_MILLIS));
    assert!(is_stale(STALE_OBSERVATION_MILLIS + 10_000));
}

#[test]
fn finishing_the_target_abandons_a_running_bite() {
    assert_eq!(eating_step(true, true, None, 3000, true, true, false), EatingStep::Abandon);
    assert_eq!(eating_step(true, false, None, 3000, true, true, false), EatingStep::Skip);
}

#[test]
fn a_running_bite_is_driven() {
    assert_eq!(eating_step(false, true, Some(0), 3000, false, false, true), EatingStep::Drive);
}

#[test]
fn one_bite_then_back_to_fighting_until_the_cooldown_passes() {
    assert_eq!(eating_step(false, false, Some(2999), 3000, true, true, false), EatingStep::Skip);
    assert_eq!(eating_step(false, false, Some(3000), 3000, true, true, false), EatingStep::Begin);
    assert_eq!(eating_step(false, false, None, 3000, true, true, false), EatingStep::Begin);
}

#[test]
fn a_bite_waits_for_hunger_readiness_and_a_free_hand() {
    assert_eq!(eating_step(false, false, None, 3000, false, true, false), EatingStep::Skip);
    assert_eq!(eating_step(false, false, None, 3000, true, false, false), EatingStep::Skip);
    assert_eq!(eating_step(false, false, None, 3000, true, true, true), EatingStep::Skip);
}

#[test]
fn hotbar_food_is_selected_in_place_and_other_food_swapped_in() {
    assert_eq!(food_placement(36), HandPlacement::Select(0));
    assert_eq!(food_placement(44), HandPlacement::Select(8));
    assert_eq!(
        food_placement(12),
        HandPlacement::SwapIn { source: 12, destination: COMBAT_FOOD_PROTOCOL_SLOT, index: COMBAT_FOOD_HOTBAR_INDEX }
    );
    assert_eq!(
        wind_charge_placement(38),
        HandPlacement::SwapIn {
            source: 38,
            destination: COMBAT_WIND_CHARGE_PROTOCOL_SLOT,
            index: COMBAT_WIND_CHARGE_HOTBAR_INDEX,
        }
    );
}
