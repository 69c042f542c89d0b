use magic_bot::combat::tick::{
    combat_step, movement_step, CombatObservation, CombatTick, CombatVerdict, MovementObservation, MovementVerdict,
};

fn seen() -> CombatObservation {
    CombatObservation {
        running: true,
        bot_ready: true,
        target_listed: true,
        target_positioned: true,
        status_read: true,
        target_alive: true,
        out_of_chase_range: false,
        finishing: false,
        wants_food: false,
    }
}

#[test]
fn the_tick_checks_run_in_order() {
    let s = CombatTick::fresh();
    assert_eq!(combat_step(&s, &CombatObservation { running: false, ..seen() }).1, CombatVerdict::Idle);
    assert_eq!(combat_step(&s, &CombatObservation { target_listed: false, target_alive: false, ..seen() }).1, CombatVerdict::Disconnect);
    assert_eq!(combat_step(&s, &CombatObservation { status_read: false, target_alive: false, ..seen() }).1, CombatVerdict::Unresolved);
    assert_eq!(combat_step(&s, &CombatObservation { target_alive: false, ..seen() }).1, CombatVerdict::Eliminate);
    let (after, verdict) = combat_step(&s, &CombatObservation { out_of_chase_range: true, ..seen() });
    assert_eq!(verdict, CombatVerdict::Abort);
    assert!(after.engaged);
}

#[test]
fn finishing_off_the_target_suspends_eating() {
    let s = CombatTick::fresh();
    let (after, verdict) = combat_step(&s, &CombatObservation { wants_food: true, ..seen() });
    assert_eq!(verdict, CombatVerdict::Fight { eat: true, newly_engaged: true, newly_finishing: false, started_eating: true });
    let (_, verdict) = combat_step(&after, &CombatObservation { wants_food: true, finishing: true, ..seen() });
    assert_eq!(verdict, CombatVerdict::Fight { eat: false, newly_engaged: false, newly_finishing: true, started_eating: false });
}

#[test]
fn one_driver_holds_the_keys() {
    let s = CombatTick::fresh();
    let far = MovementObservation { pathfinder_drives: true, wind_launch_active: false, eating_blocked: false, allow_retreat_while_eating: true };
    let (s, v) = movement_step(&s, &far);
    assert_eq!(v, MovementVerdict::Pathfind { hand_over: true });
    let (s2, v) = movement_step(&s, &far);
    assert_eq!(v, MovementVerdict::Pathfind { hand_over: false });
    let near = MovementObservation { pathfinder_drives: false, eating_blocked: true, ..far };
    let (_, v) = movement_step(&s2, &near);
    assert_eq!(v, MovementVerdict::Steer { take_back: true, sprint_allowed: false, retreat: true });
    let launching = MovementObservation { pathfinder_drives: false, wind_launch_active: true, ..far };
    assert_eq!(movement_step(&CombatTick::fresh(), &launching).1, MovementVerdict::HoldStill { take_back: false });
}
