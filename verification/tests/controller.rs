use magic_bot::combat::controller::{movement_keys, should_jump, KeyInputs, MovementCommand, JUMP_COOLDOWN, SPRINT_RESET};
use magic_bot::combat::movement::pathfinder_should_drive;
use magic_bot::combat::steering::CombatWalk;

// Distances are in thousandths of a block; durations in milliseconds.

fn inputs(projected: CombatWalk) -> KeyInputs {
    KeyInputs {
        projected,
        blocked_ahead: false,
        step_ahead: false,
        on_ground: true,
        horizontal_collision: false,
        closing: true,
        beyond_preferred: true,
        sprint_reset_enabled: true,
        since_attack: None,
        since_jump: None,
    }
}

#[test]
fn a_distant_target_is_approached_with_the_pathfinder() {
    assert!(pathfinder_should_drive(50_000, 6000, false));
    assert!(pathfinder_should_drive(50_000, 6000, true));
}

#[test]
fn combat_movement_takes_over_inside_the_engage_range() {
    assert!(!pathfinder_should_drive(2000, 6000, true));
    assert!(!pathfinder_should_drive(2000, 6000, false));
}

#[test]
fn the_handover_does_not_flap_at_the_boundary() {
    let engage = 6000;
    // Whichever system holds control keeps it inside the band.
    assert!(!pathfinder_should_drive(6500, engage, false));
    assert!(pathfinder_should_drive(6500, engage, true));
}

#[test]
fn a_target_that_runs_away_is_handed_back_to_the_pathfinder() {
    let engage = 6000;
    let mut driving = false;
    for distance in [2000, 4000, 7000, 9000] {
        driving = pathfinder_should_drive(distance, engage, driving);
    }
    assert!(driving, "should be chasing with the pathfinder again");
}

#[test]
fn closing_from_range_switches_exactly_once() {
    let engage = 6000;
    let mut driving = true;
    let mut switches = 0;
    for step in 0..40u64 {
        let distance = 20_000 - 500 * step;
        let next = pathfinder_should_drive(distance, engage, driving);
        if next != driving {
            switches += 1;
        }
        driving = next;
    }
    assert_eq!(switches, 1, "one clean handover on the way in");
    assert!(!driving);
}

#[test]
fn the_handback_threshold_is_a_third_past_the_engage_range() {
    assert!(!pathfinder_should_drive(8100, 6000, false));
    assert!(pathfinder_should_drive(8101, 6000, false));
}

#[test]
fn a_forward_walk_beyond_the_band_sprints() {
    let keys = movement_keys(inputs(CombatWalk::Forward));
    assert_eq!(keys, MovementCommand { walk: CombatWalk::Forward, sprint: true, jump: false, sneak: false });
}

#[test]
fn a_sideways_walk_never_sprints() {
    let keys = movement_keys(inputs(CombatWalk::Left));
    assert_eq!(keys.walk, CombatWalk::Left);
    assert!(!keys.sprint);
}

#[test]
fn inside_the_band_the_bot_does_not_sprint() {
    let mut i = inputs(CombatWalk::ForwardLeft);
    i.beyond_preferred = false;
    assert!(!movement_keys(i).sprint);
}

#[test]
fn a_sprint_reset_drops_sprint_briefly_without_stopping_the_bot() {
    let mut i = inputs(CombatWalk::Forward);
    i.since_attack = Some(SPRINT_RESET - 1);
    let keys = movement_keys(i);
    assert_eq!(keys.walk, CombatWalk::Forward);
    assert!(!keys.sprint);
    i.since_attack = Some(SPRINT_RESET);
    assert!(movement_keys(i).sprint);
}

#[test]
fn sprint_resets_can_be_switched_off() {
    let mut i = inputs(CombatWalk::Forward);
    i.since_attack = Some(0);
    i.sprint_reset_enabled = false;
    assert!(movement_keys(i).sprint);
}

#[test]
fn a_ledge_or_lava_ahead_stops_the_bot_rather_than_only_nudging_it() {
    let mut i = inputs(CombatWalk::ForwardRight);
    i.blocked_ahead = true;
    i.step_ahead = true;
    let keys = movement_keys(i);
    assert_eq!(keys, MovementCommand { walk: CombatWalk::Stand, sprint: false, jump: false, sneak: false });
}

#[test]
fn a_hazard_ahead_leaves_a_backward_walk_alone() {
    let mut i = inputs(CombatWalk::Backward);
    i.blocked_ahead = true;
    assert_eq!(movement_keys(i).walk, CombatWalk::Backward);
}

#[test]
fn a_step_up_is_jumped_once_rather_than_hopped_continuously() {
    let mut i = inputs(CombatWalk::Forward);
    i.step_ahead = true;
    assert!(movement_keys(i).jump);
    i.since_jump = Some(JUMP_COOLDOWN - 1);
    assert!(!movement_keys(i).jump);
    i.since_jump = Some(JUMP_COOLDOWN);
    assert!(movement_keys(i).jump);
}

#[test]
fn walking_into_something_while_failing_to_close_triggers_a_jump() {
    assert!(should_jump(true, CombatWalk::Forward, None, false, false, true, false));
    assert!(!should_jump(true, CombatWalk::Forward, None, false, false, true, true));
}

#[test]
fn it_does_not_jump_while_airborne_or_standing() {
    assert!(!should_jump(false, CombatWalk::Forward, None, false, true, false, true));
    assert!(!should_jump(true, CombatWalk::Stand, None, false, true, false, true));
}
