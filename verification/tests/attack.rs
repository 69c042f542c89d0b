use magic_bot::combat::attack::{
    compute_active_phase, attack_cooldown, decide_attack, shield_change, wants_to_begin_wind_launch, AttackAction,
    AttackInputs, ShieldChange, SwingRecord,
};
use magic_bot::combat::crits::{CRIT_HOLD_TIMEOUT, CRIT_JUMP_LEAD, SWORD_COOLDOWN};
use magic_bot::combat::mace::{random_mace_attempt_hits, MACE_ATTEMPT_MAX_HITS, MACE_ATTEMPT_MIN_HITS};
use magic_bot::combat::movement::{band_for, DistanceBand, AGGRESSIVE_CLOSE_DISTANCE, BACK_OFF_DISTANCE, SPRINT_IN_MARGIN};
use magic_bot::combat::state::{CombatPhase, KillState};
use magic_bot::combat::weapon::{choose_weapon, WeaponAction, SMASH_WINDOW_TIMEOUT};
use magic_bot::equipment::model::EquipmentItem;
use magic_bot::equipment::tool_selection::ToolCategory;
use magic_bot::rng::SeededRng;

// Times are in nanoseconds; distances and falls in thousandths of a block;
// vertical velocity in thousandths of a block per tick.

const SECOND: u64 = 1_000_000_000;

fn ready(now: u64) -> AttackInputs {
    AttackInputs {
        within_attack_range: true,
        now,
        cooldown: SWORD_COOLDOWN,
        last_attack: None,
        last_jump: None,
        crit_hold_since: None,
        holding_mace: false,
        crit_enabled: true,
        always_crit: false,
        finishing: false,
        on_ground: true,
        velocity_y_milli: 0,
        fall_distance: 0,
    }
}

#[test]
fn preferred_max_tracks_a_larger_attack_range_instead_of_the_steering_default() {
    // An attack range of 3 blocks with a preferred range of 1.8, below the
    // derived floor: sprinting stops 0.3 blocks inside the attack range.
    assert_eq!(band_for(3000, 1800).preferred_max, 3000 - SPRINT_IN_MARGIN);
}

#[test]
fn preferred_max_never_exceeds_attack_range() {
    assert!(band_for(2000, 10_000).preferred_max <= 2000);
}

#[test]
fn an_explicit_preferred_range_above_the_derived_floor_still_wins() {
    assert_eq!(band_for(3000, 2900).preferred_max, 2900);
}

#[test]
fn chase_always_stays_past_preferred_max_so_the_eased_approach_zone_survives() {
    let band = band_for(6000, 1800);
    assert!(band.chase > band.preferred_max);
}

#[test]
fn a_small_attack_range_does_not_shrink_chase_below_its_compiled_default() {
    assert_eq!(band_for(1000, 500).chase, DistanceBand::default().chase);
}

#[test]
fn the_distance_bands_are_ordered_and_match_the_steering_defaults() {
    let band = DistanceBand::default();
    assert_eq!(band.too_close, BACK_OFF_DISTANCE);
    assert_eq!(band.chase, AGGRESSIVE_CLOSE_DISTANCE);
    assert!(band.preferred_min < band.preferred_max);
    assert!(band.preferred_min >= 1500 && band.preferred_max <= 2000);
}

#[test]
fn a_new_fight_starts_with_zero_hits_and_a_threshold_in_range() {
    let record = SwingRecord {
        last_attack: None,
        crit_hold_since: None,
        hits_landed: 0,
        crits_landed: 0,
        axe_turn: false,
        hits_since_mace_attempt: 0,
        awaiting_smash_since: None,
    };
    assert_eq!(record.hits_since_mace_attempt, 0);
    let threshold = random_mace_attempt_hits(&mut SeededRng::new(1));
    assert!((MACE_ATTEMPT_MIN_HITS..=MACE_ATTEMPT_MAX_HITS).contains(&threshold));
}

#[test]
fn a_deliberate_attempt_is_not_wanted_until_the_hit_threshold_is_reached() {
    assert!(!wants_to_begin_wind_launch(true, true, true, false, true, 3, 4));
    assert!(wants_to_begin_wind_launch(true, true, true, false, true, 4, 4));
}

#[test]
fn a_deliberate_attempt_is_never_wanted_with_prefer_mace_off() {
    assert!(!wants_to_begin_wind_launch(false, true, true, false, true, 999, 4));
}

#[test]
fn a_deliberate_attempt_waits_for_a_bite_or_another_launch() {
    assert!(!wants_to_begin_wind_launch(true, true, true, true, true, 9, 4));
    assert!(!wants_to_begin_wind_launch(true, true, true, false, false, 9, 4));
    assert!(!wants_to_begin_wind_launch(true, false, true, false, true, 9, 4));
}

#[test]
fn landing_a_mace_swing_rearms_the_counter_and_clears_the_smash_wait() {
    let record = SwingRecord {
        last_attack: None,
        crit_hold_since: Some(5),
        hits_landed: 2,
        crits_landed: 1,
        axe_turn: false,
        hits_since_mace_attempt: 5,
        awaiting_smash_since: Some(7),
    };
    let after = record.landed(100, false, true);
    assert_eq!(after.hits_since_mace_attempt, 0);
    assert!(after.awaiting_smash_since.is_none());
    assert_eq!(after.last_attack, Some(100));
    assert_eq!(after.crit_hold_since, None);
    assert_eq!(after.hits_landed, 3);
    assert_eq!(after.crits_landed, 1);
    assert!(after.axe_turn);
}

#[test]
fn an_ordinary_swing_counts_toward_the_next_attempt() {
    let record = SwingRecord {
        last_attack: Some(1),
        crit_hold_since: None,
        hits_landed: 0,
        crits_landed: 0,
        axe_turn: true,
        hits_since_mace_attempt: 0,
        awaiting_smash_since: Some(3),
    };
    let after = record.landed(100, true, false);
    assert_eq!(after.hits_since_mace_attempt, 1);
    assert_eq!(after.awaiting_smash_since, Some(3));
    assert_eq!(after.crits_landed, 1);
    assert!(!after.axe_turn);
}

#[test]
fn out_of_range_nothing_is_held() {
    let mut i = ready(10 * SECOND);
    i.within_attack_range = false;
    i.crit_hold_since = Some(SECOND);
    let step = decide_attack(i);
    assert_eq!(step.action, AttackAction::Wait);
    assert_eq!(step.crit_hold_since, None);
}

#[test]
fn the_crit_jump_is_fired_just_before_the_cooldown_opens() {
    let mut i = ready(10 * SECOND);
    i.last_attack = Some(10 * SECOND - (SWORD_COOLDOWN - CRIT_JUMP_LEAD));
    assert_eq!(decide_attack(i).action, AttackAction::PreJump);
    // Too early in the cooldown: wait.
    i.last_attack = Some(10 * SECOND - 100);
    assert_eq!(decide_attack(i).action, AttackAction::Wait);
    // Never with a Mace, never with crits off.
    i.last_attack = Some(10 * SECOND - (SWORD_COOLDOWN - CRIT_JUMP_LEAD));
    i.holding_mace = true;
    assert_eq!(decide_attack(i).action, AttackAction::Wait);
}

#[test]
fn a_ready_swing_while_falling_is_a_crit() {
    let mut i = ready(10 * SECOND);
    i.on_ground = false;
    i.velocity_y_milli = -80;
    assert_eq!(decide_attack(i).action, AttackAction::Swing { critical: true });
}

#[test]
fn a_ready_swing_while_rising_is_held_then_released() {
    let mut i = ready(10 * SECOND);
    i.on_ground = false;
    i.velocity_y_milli = 200;
    let step = decide_attack(i);
    assert_eq!(step.action, AttackAction::Wait);
    assert_eq!(step.crit_hold_since, Some(10 * SECOND));
    i.crit_hold_since = step.crit_hold_since;
    i.now = 10 * SECOND + CRIT_HOLD_TIMEOUT;
    assert_eq!(decide_attack(i).action, AttackAction::Swing { critical: false });
}

#[test]
fn a_finishing_blow_on_the_ground_jumps_for_a_crit() {
    let mut i = ready(10 * SECOND);
    i.finishing = true;
    let step = decide_attack(i);
    assert_eq!(step.action, AttackAction::CritJump);
    assert_eq!(step.crit_hold_since, Some(10 * SECOND));
    // Without a finishing blow or always_crit, the plain swing keeps the
    // sprint knockback.
    i.finishing = false;
    assert_eq!(decide_attack(i).action, AttackAction::Swing { critical: false });
}

#[test]
fn a_ready_mace_swings_at_once_and_reports_a_smash() {
    let mut i = ready(10 * SECOND);
    i.holding_mace = true;
    assert_eq!(decide_attack(i).action, AttackAction::MaceSwing { smash: false });
    i.on_ground = false;
    i.velocity_y_milli = -500;
    i.fall_distance = 2000;
    assert_eq!(decide_attack(i).action, AttackAction::MaceSwing { smash: true });
}

#[test]
fn the_cooldown_comes_from_config_then_the_weapon_then_a_sword() {
    assert_eq!(attack_cooldown(Some(5), Some(7)), 5);
    assert_eq!(attack_cooldown(None, Some(7)), 7);
    assert_eq!(attack_cooldown(None, None), SWORD_COOLDOWN);
}

#[test]
fn the_phase_follows_the_distance() {
    assert_eq!(compute_active_phase(AGGRESSIVE_CLOSE_DISTANCE + 1), CombatPhase::Chase);
    assert_eq!(compute_active_phase(AGGRESSIVE_CLOSE_DISTANCE), CombatPhase::Strafe);
    assert_eq!(compute_active_phase(BACK_OFF_DISTANCE), CombatPhase::Strafe);
    assert_eq!(compute_active_phase(BACK_OFF_DISTANCE - 1), CombatPhase::Reposition);
}

#[test]
fn the_shield_only_changes_on_a_transition() {
    assert_eq!(shield_change(true, true, false), ShieldChange::Raise);
    assert_eq!(shield_change(true, true, true), ShieldChange::Keep);
    assert_eq!(shield_change(false, true, true), ShieldChange::Lower);
    assert_eq!(shield_change(true, false, true), ShieldChange::Lower);
    assert_eq!(shield_change(true, false, false), ShieldChange::Keep);
}

fn item(slot: usize, id: &str, current: u32, max: u32) -> EquipmentItem {
    EquipmentItem { slot, item_id: id.into(), current_durability: current, max_durability: max }
}

#[test]
fn the_held_sword_is_kept_and_times_the_swing() {
    let inventory = [item(36, "minecraft:diamond_sword", 100, 100), item(10, "minecraft:iron_axe", 100, 100)];
    let choice = choose_weapon(&inventory, Some(0), None, false, false, false, None, 0, true, 0, 0);
    assert_eq!(choice.action, WeaponAction::Keep);
    assert_eq!(choice.held_cooldown, SWORD_COOLDOWN);
    assert!(!choice.holding_mace);
}

#[test]
fn a_blocking_target_calls_for_the_axe_and_a_shield_break() {
    let inventory = [item(36, "minecraft:diamond_sword", 100, 100), item(10, "minecraft:iron_axe", 100, 100)];
    let choice = choose_weapon(&inventory, Some(0), None, false, true, false, None, 0, true, 0, 0);
    assert_eq!(choice.action, WeaponAction::EquipCategory(ToolCategory::Axe));
    assert!(choice.breaks_shield);
}

#[test]
fn a_critically_worn_weapon_is_replaced() {
    let inventory = [item(36, "minecraft:diamond_sword", 5, 100), item(37, "minecraft:iron_sword", 100, 100)];
    let choice = choose_weapon(&inventory, Some(0), None, false, false, false, None, 0, true, 0, 0);
    assert_eq!(choice.action, WeaponAction::EquipCategory(ToolCategory::Sword));
    assert!(!choice.breaks_shield);
}

#[test]
fn a_launched_smash_takes_the_mace_until_the_window_closes() {
    let inventory = [item(36, "minecraft:diamond_sword", 100, 100), item(12, "minecraft:mace", 100, 100)];
    let choice = choose_weapon(&inventory, Some(0), None, true, false, false, Some(SECOND), 2 * SECOND, true, 0, 0);
    assert_eq!(choice.action, WeaponAction::EquipSlot(12));
    assert!(choice.holding_mace);
    assert_eq!(choice.held_cooldown, 1_667_000_000);
    assert_eq!(choice.awaiting_smash_since, Some(SECOND));

    let late = choose_weapon(&inventory, Some(0), None, true, false, false, Some(SECOND), SECOND + SMASH_WINDOW_TIMEOUT, true, 0, 0);
    assert_eq!(late.action, WeaponAction::Keep);
    assert_eq!(late.awaiting_smash_since, None);
}

#[test]
fn a_blocking_target_outranks_the_mace() {
    let inventory = [item(36, "minecraft:mace", 100, 100), item(10, "minecraft:iron_axe", 100, 100)];
    let choice = choose_weapon(&inventory, Some(0), None, true, true, false, Some(SECOND), SECOND, false, -500, 3000);
    assert_eq!(choice.action, WeaponAction::EquipCategory(ToolCategory::Axe));
    assert!(choice.holding_mace);
}

#[test]
fn only_completed_failed_and_cancelled_tasks_are_finished() {
    for (state, finished) in [
        (KillState::Created, false),
        (KillState::Running, false),
        (KillState::Completed, true),
        (KillState::Failed, true),
        (KillState::Cancelled, true),
    ] {
        assert_eq!(state.is_finished(), finished);
    }
}
