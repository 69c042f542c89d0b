use magic_bot::combat::movement::{
    decide_movement, next_flip_interval, next_strafe_pattern, should_flip_strafe,
    should_jump_over_obstacle, MovementDecision, StrafePattern, StrafeSide,
    AGGRESSIVE_CLOSE_DISTANCE, BACK_OFF_DISTANCE, PREFERRED_MAX_DISTANCE, STRAFE_FLIP_INTERVAL,
    STRAFE_FLIP_JITTER,
};
use magic_bot::combat::steering::CombatWalk;
use magic_bot::rng::SeededRng;

// Distances are in thousandths of a block.

#[test]
fn aggressively_closes_distance_and_sprints_past_the_aggressive_threshold() {
    let decision = decide_movement(AGGRESSIVE_CLOSE_DISTANCE + 100, StrafePattern::Left);
    assert!(decision.forward);
    assert!(!decision.backward);
    assert!(decision.sprint);
}

#[test]
fn gently_closes_distance_without_sprinting_just_past_the_preferred_band() {
    let decision = decide_movement(PREFERRED_MAX_DISTANCE + 100, StrafePattern::Left);
    assert!(decision.forward);
    assert!(!decision.backward);
    assert!(!decision.sprint);
}

#[test]
fn never_backs_off_however_close_the_target_is() {
    for distance in [0, 500, BACK_OFF_DISTANCE - 200, BACK_OFF_DISTANCE, 1600] {
        let decision = decide_movement(distance, StrafePattern::Right);
        assert!(!decision.backward, "full aggression must never retreat (distance {distance})");
        assert!(!decision.forward);
        assert!(!decision.sprint);
        assert_eq!(decision.strafe, Some(StrafeSide::Right));
    }
}

#[test]
fn holds_position_and_strafes_up_to_the_preferred_maximum() {
    let decision = decide_movement(PREFERRED_MAX_DISTANCE, StrafePattern::Left);
    assert!(!decision.forward);
    assert!(!decision.backward);
    assert!(!decision.sprint);
}

#[test]
fn an_active_strafe_pattern_is_never_overridden_by_distance() {
    for distance in [200, 1000, 1750, 2500, 10000] {
        let decision = decide_movement(distance, StrafePattern::Right);
        assert_eq!(decision.strafe, Some(StrafeSide::Right));
    }
}

#[test]
fn a_still_pattern_never_strafes_regardless_of_distance() {
    for distance in [200, 1000, 1750, 2500, 10000] {
        let decision = decide_movement(distance, StrafePattern::Still);
        assert_eq!(decision.strafe, None);
    }
}

#[test]
fn sprinting_starts_only_strictly_past_the_aggressive_threshold() {
    let at = decide_movement(AGGRESSIVE_CLOSE_DISTANCE, StrafePattern::Still);
    assert!(at.forward);
    assert!(!at.sprint);
    let past = decide_movement(AGGRESSIVE_CLOSE_DISTANCE + 1, StrafePattern::Still);
    assert!(past.forward && past.sprint);
}

#[test]
fn strafe_side_flips_to_its_opposite_and_back() {
    assert_eq!(StrafeSide::Left.flipped(), StrafeSide::Right);
    assert_eq!(StrafeSide::Right.flipped(), StrafeSide::Left);
    assert_eq!(StrafeSide::Left.flipped().flipped(), StrafeSide::Left);
}

#[test]
fn strafe_pattern_side_matches_active_sides_and_is_none_when_still() {
    assert_eq!(StrafePattern::Left.side(), Some(StrafeSide::Left));
    assert_eq!(StrafePattern::Right.side(), Some(StrafeSide::Right));
    assert_eq!(StrafePattern::Still.side(), None);
}

#[test]
fn next_strafe_pattern_never_stays_still_two_intervals_in_a_row() {
    let mut rng = SeededRng::new(11);
    let mut current = StrafePattern::Still;
    for _ in 0..200 {
        let next = next_strafe_pattern(current, &mut rng);
        if current == StrafePattern::Still {
            assert_ne!(next, StrafePattern::Still, "must not chain two Still intervals");
        }
        current = next;
    }
}

#[test]
fn next_strafe_pattern_sometimes_pauses_and_sometimes_stays_active() {
    let mut rng = SeededRng::new(42);
    let mut current = StrafePattern::Left;
    let mut saw_still = false;
    let mut saw_active = false;
    for _ in 0..200 {
        current = next_strafe_pattern(current, &mut rng);
        if current == StrafePattern::Still {
            saw_still = true;
        } else {
            saw_active = true;
        }
    }
    assert!(saw_still, "should pause sometimes");
    assert!(saw_active, "should still actively strafe sometimes");
}

#[test]
fn next_strafe_pattern_alternates_sides_when_continuing_to_strafe() {
    let mut rng = SeededRng::new(3);
    let mut current = StrafePattern::Left;
    for _ in 0..200 {
        let next = next_strafe_pattern(current, &mut rng);
        if current != StrafePattern::Still && next != StrafePattern::Still {
            assert_ne!(current, next, "an active-to-active transition must flip sides");
        }
        current = next;
    }
}

#[test]
fn jumps_over_an_obstacle_only_while_moving_forward_grounded_and_blocked() {
    assert!(should_jump_over_obstacle(true, true, true));
}

#[test]
fn does_not_jump_when_not_actually_moving_forward() {
    assert!(!should_jump_over_obstacle(false, true, true));
}

#[test]
fn does_not_jump_again_while_already_airborne() {
    assert!(!should_jump_over_obstacle(true, false, true));
}

#[test]
fn does_not_jump_when_nothing_is_blocking_the_way() {
    assert!(!should_jump_over_obstacle(true, true, false));
}

#[test]
fn flip_is_due_once_the_hold_time_reaches_the_interval() {
    let interval = 700;
    assert!(!should_flip_strafe(699, interval));
    assert!(should_flip_strafe(700, interval));
    assert!(should_flip_strafe(5000, interval));
}

#[test]
fn walk_direction_combines_approach_and_strafe() {
    assert_eq!(
        MovementDecision { forward: true, backward: false, strafe: Some(StrafeSide::Left), sprint: true }
            .walk_direction(),
        CombatWalk::ForwardLeft
    );
    assert_eq!(
        MovementDecision { forward: false, backward: true, strafe: Some(StrafeSide::Right), sprint: false }
            .walk_direction(),
        CombatWalk::BackwardRight
    );
    assert_eq!(
        MovementDecision { forward: false, backward: false, strafe: Some(StrafeSide::Left), sprint: false }
            .walk_direction(),
        CombatWalk::Left
    );
    assert_eq!(
        MovementDecision { forward: false, backward: false, strafe: None, sprint: false }
            .walk_direction(),
        CombatWalk::Stand
    );
}

#[test]
fn next_flip_interval_stays_within_the_jittered_bounds() {
    let mut rng = SeededRng::new(7);
    for _ in 0..50 {
        let interval = next_flip_interval(&mut rng);
        assert!(interval >= STRAFE_FLIP_INTERVAL);
        assert!(interval <= STRAFE_FLIP_INTERVAL + STRAFE_FLIP_JITTER);
    }
}

#[test]
fn the_generator_is_deterministic_per_seed() {
    let mut a = SeededRng::new(99);
    let mut b = SeededRng::new(99);
    for _ in 0..10 {
        assert_eq!(a.next_u64(), b.next_u64());
    }
    let mut c = SeededRng::new(0);
    // SplitMix64 from seed 0: the first output is a published constant.
    assert_eq!(c.next_u64(), 0xE220_A839_7B1D_CDAF);
}

#[test]
fn below_stays_under_its_bound() {
    let mut rng = SeededRng::new(5);
    for _ in 0..100 {
        assert!(rng.below(4) < 4);
    }
    assert!(!rng.chance_percent(0));
    assert!(rng.chance_percent(100));
}
