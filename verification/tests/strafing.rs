use magic_bot::combat::steering::CombatWalk;
use magic_bot::combat::strafing::{next_interval, OrbitDirection, StrafePlanner, BASE_INTERVAL, INTERVAL_JITTER};
use magic_bot::rng::SeededRng;

const TICK: u64 = 50;

fn rng() -> SeededRng {
    SeededRng::new(7)
}

#[test]
fn the_signs_drive_the_steering_in_opposite_directions() {
    assert_eq!(OrbitDirection::Left.sign(), 1);
    assert_eq!(OrbitDirection::Right.sign(), -1);
    assert_eq!(OrbitDirection::Still.sign(), 0);
}

#[test]
fn reversing_swaps_the_circling_directions_and_starts_from_still() {
    assert_eq!(OrbitDirection::Left.reversed(), OrbitDirection::Right);
    assert_eq!(OrbitDirection::Right.reversed(), OrbitDirection::Left);
    assert_eq!(OrbitDirection::Still.reversed(), OrbitDirection::Left);
    assert!(OrbitDirection::Left.is_circling());
    assert!(!OrbitDirection::Still.is_circling());
}

#[test]
fn a_direction_is_held_for_its_whole_interval() {
    let mut planner = StrafePlanner::new();
    let mut rng = rng();
    let start = planner.advance(0, &mut rng);
    for _ in 0..5 {
        assert_eq!(planner.advance(TICK, &mut rng), start);
    }
}

#[test]
fn the_direction_eventually_changes() {
    let mut planner = StrafePlanner::new();
    let mut rng = rng();
    let start = planner.advance(0, &mut rng);
    let mut changed = false;
    for _ in 0..20 {
        if planner.advance(TICK, &mut rng) != start {
            changed = true;
            break;
        }
    }
    assert!(changed, "the orbit must not be one-directional");
}

#[test]
fn intervals_vary_so_there_is_no_period_to_read() {
    let mut planner = StrafePlanner::new();
    let mut rng = rng();
    let mut lengths = Vec::new();
    let mut ticks_on_current = 0;
    let mut previous = planner.advance(0, &mut rng);
    for _ in 0..400 {
        let direction = planner.advance(TICK, &mut rng);
        ticks_on_current += 1;
        if direction != previous {
            lengths.push(ticks_on_current);
            ticks_on_current = 0;
            previous = direction;
        }
    }
    assert!(lengths.len() > 5, "should have switched repeatedly");
    let first = lengths[0];
    assert!(lengths.iter().any(|length| *length != first), "every interval was the same length: {lengths:?}");
}

#[test]
fn the_bot_never_plants_its_feet_twice_in_a_row() {
    let mut planner = StrafePlanner::new();
    let mut rng = SeededRng::new(11);
    let mut previous = planner.advance(0, &mut rng);
    let mut consecutive_still = 0;
    for _ in 0..600 {
        let direction = planner.advance(TICK, &mut rng);
        if direction != previous {
            if direction == OrbitDirection::Still {
                consecutive_still += 1;
                assert!(consecutive_still < 2, "stood still two intervals running");
            } else {
                consecutive_still = 0;
            }
            previous = direction;
        }
    }
}

#[test]
fn both_circling_and_planted_intervals_actually_occur() {
    let mut planner = StrafePlanner::new();
    let mut rng = SeededRng::new(3);
    let mut saw_still = false;
    let mut saw_circling = false;
    for _ in 0..600 {
        match planner.advance(TICK, &mut rng) {
            OrbitDirection::Still => saw_still = true,
            _ => saw_circling = true,
        }
    }
    assert!(saw_still && saw_circling);
}

#[test]
fn landing_a_hit_shortens_the_current_interval() {
    let mut planner = StrafePlanner::new();
    let mut rng = rng();
    let before = planner.advance(0, &mut rng);
    planner.note_attack();
    planner.advance(TICK, &mut rng);
    planner.advance(TICK, &mut rng);
    let after = planner.advance(TICK, &mut rng);
    assert_ne!(after, before, "a combo should switch sides sooner");
}

#[test]
fn a_forced_switch_takes_effect_on_the_next_update() {
    let mut planner = StrafePlanner::new();
    let mut rng = rng();
    let before = planner.advance(0, &mut rng);
    planner.force_switch();
    assert_ne!(planner.advance(TICK, &mut rng), before);
}

#[test]
fn a_reset_starts_a_fresh_pattern() {
    let mut planner = StrafePlanner::new();
    let mut rng = rng();
    planner.advance(TICK, &mut rng);
    planner.reset(&mut rng);
    assert!(planner.advance(0, &mut rng).is_circling(), "never resets to planted");
}

#[test]
fn the_same_seed_replays_the_same_pattern() {
    let replay = |seed: u64| {
        let mut planner = StrafePlanner::new();
        let mut rng = SeededRng::new(seed);
        (0..50).map(|_| planner.advance(TICK, &mut rng)).collect::<Vec<_>>()
    };
    assert_eq!(replay(42), replay(42));
    assert_ne!(replay(42), replay(43));
}

#[test]
fn intervals_stay_within_the_jittered_range() {
    let mut rng = SeededRng::new(1);
    for _ in 0..100 {
        let interval = next_interval(&mut rng);
        assert!(interval >= BASE_INTERVAL && interval <= BASE_INTERVAL + INTERVAL_JITTER);
    }
}

#[test]
fn only_forward_directions_admit_a_sprint() {
    assert!(CombatWalk::Forward.allows_sprint());
    assert!(CombatWalk::ForwardLeft.allows_sprint());
    assert!(CombatWalk::ForwardRight.allows_sprint());
    assert!(!CombatWalk::Left.allows_sprint());
    assert!(!CombatWalk::Backward.allows_sprint());
    assert!(!CombatWalk::Stand.allows_sprint());
}

#[test]
fn standing_is_the_only_walk_that_does_not_move() {
    assert!(!CombatWalk::Stand.is_moving());
    for walk in [
        CombatWalk::Forward,
        CombatWalk::ForwardRight,
        CombatWalk::Right,
        CombatWalk::BackwardRight,
        CombatWalk::Backward,
        CombatWalk::BackwardLeft,
        CombatWalk::Left,
        CombatWalk::ForwardLeft,
    ] {
        assert!(walk.is_moving());
    }
}

#[test]
fn every_hold_from_a_fresh_planner_lasts_its_drawn_interval() {
    // 10 ms ticks: the first hold is 280 ms, every later one 280..=430 ms,
    // and a pause is always followed by circling left.
    let mut planner = StrafePlanner::new();
    let mut rng = SeededRng::new(5);
    let mut previous = OrbitDirection::Left;
    let mut held: u64 = 0;
    let mut holds = Vec::new();
    for _ in 0..3000 {
        let direction = planner.advance(10, &mut rng);
        held += 10;
        if direction != previous {
            if previous == OrbitDirection::Still {
                assert_eq!(direction, OrbitDirection::Left);
            }
            holds.push(held);
            held = 0;
            previous = direction;
        }
    }
    assert_eq!(holds[0], BASE_INTERVAL);
    assert!(holds.len() > 10);
    assert!(holds.iter().all(|h| (BASE_INTERVAL..=BASE_INTERVAL + INTERVAL_JITTER + 10).contains(h)));
}
