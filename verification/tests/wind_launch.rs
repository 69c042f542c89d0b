use magic_bot::combat::wind_launch::{
    WindLaunchAction, WindLaunchFailure, WindLaunchMachine, WindLaunchObservation, WindLaunchState,
    AIM_TIMEOUT, ATTEMPT_COOLDOWN, LAUNCH_TIMEOUT, SLOT_ACK_TIMEOUT,
};

fn at(millis: u64) -> u64 {
    1_000_000 + millis
}

fn observation(millis: u64) -> WindLaunchObservation {
    WindLaunchObservation {
        acknowledged_slot: None,
        aim_settled: false,
        on_ground: true,
        velocity_y_milli: 0,
        now: at(millis),
    }
}

fn launch_successfully() -> WindLaunchMachine {
    let mut machine = WindLaunchMachine::new(at(0));
    machine.begin(at(0));
    assert_eq!(machine.advance(observation(0)), WindLaunchAction::SelectSlot);
    machine.slot_selected(at(0));
    let mut acked = observation(50);
    acked.acknowledged_slot = Some(6);
    assert_eq!(machine.advance(acked), WindLaunchAction::AimDown);
    machine.aim_started(at(50));
    assert_eq!(machine.advance(observation(150)), WindLaunchAction::Wait);
    let mut settled = observation(300);
    settled.aim_settled = true;
    assert_eq!(machine.advance(settled), WindLaunchAction::Throw);
    machine.thrown(at(300));
    let mut still_grounded = observation(350);
    still_grounded.on_ground = true;
    assert_eq!(machine.advance(still_grounded), WindLaunchAction::Wait);
    let mut launched = observation(500);
    launched.on_ground = false;
    launched.velocity_y_milli = 1200;
    assert_eq!(machine.advance(launched), WindLaunchAction::Launched);
    machine
}

#[test]
fn wind_launch_a_new_machine_is_idle_and_ready() {
    let machine = WindLaunchMachine::new(at(0));
    assert_eq!(machine.state(), WindLaunchState::Idle);
    assert!(machine.ready_to_start(at(0)));
    assert!(!machine.state().is_active());
}

#[test]
fn a_full_launch_succeeds_end_to_end() {
    let machine = launch_successfully();
    assert_eq!(machine.state(), WindLaunchState::Idle);
    assert!(
        !machine.ready_to_start(at(500)),
        "the post-attempt cooldown applies even on success"
    );
    assert!(machine.ready_to_start(at(500 + ATTEMPT_COOLDOWN)));
}

#[test]
fn use_is_not_sent_until_the_slot_is_acknowledged() {
    let mut machine = WindLaunchMachine::new(at(0));
    machine.begin(at(0));
    machine.slot_selected(at(0));
    assert_eq!(machine.advance(observation(100)), WindLaunchAction::Wait);
    let mut acked = observation(200);
    acked.acknowledged_slot = Some(6);
    assert_eq!(machine.advance(acked), WindLaunchAction::AimDown);
}

#[test]
fn the_throw_is_not_sent_until_the_camera_settles() {
    let mut machine = WindLaunchMachine::new(at(0));
    machine.begin(at(0));
    machine.slot_selected(at(0));
    let mut acked = observation(0);
    acked.acknowledged_slot = Some(6);
    machine.advance(acked);
    machine.aim_started(at(0));
    assert_eq!(machine.advance(observation(100)), WindLaunchAction::Wait);
    let mut settled = observation(200);
    settled.aim_settled = true;
    assert_eq!(machine.advance(settled), WindLaunchAction::Throw);
}

#[test]
fn wind_launch_an_unacknowledged_slot_fails_and_schedules_a_retry() {
    let mut machine = WindLaunchMachine::new(at(0));
    machine.begin(at(0));
    machine.slot_selected(at(0));
    let action = machine.advance(observation(SLOT_ACK_TIMEOUT));
    assert_eq!(
        action,
        WindLaunchAction::Failed {
            reason: WindLaunchFailure::SlotNotAcknowledged,
            retry_in: ATTEMPT_COOLDOWN,
        }
    );
    assert_eq!(machine.state(), WindLaunchState::Idle);
    assert!(!machine.ready_to_start(at(SLOT_ACK_TIMEOUT)));
}

#[test]
fn a_camera_that_never_settles_fails_and_schedules_a_retry() {
    let mut machine = WindLaunchMachine::new(at(0));
    machine.begin(at(0));
    machine.slot_selected(at(0));
    let mut acked = observation(0);
    acked.acknowledged_slot = Some(6);
    machine.advance(acked);
    machine.aim_started(at(0));
    let action = machine.advance(observation(AIM_TIMEOUT));
    assert_eq!(
        action,
        WindLaunchAction::Failed {
            reason: WindLaunchFailure::AimNeverSettled,
            retry_in: ATTEMPT_COOLDOWN,
        }
    );
    assert_eq!(machine.state(), WindLaunchState::Idle);
}

#[test]
fn a_throw_that_never_launches_fails_and_schedules_a_retry() {
    let mut machine = WindLaunchMachine::new(at(0));
    machine.begin(at(0));
    machine.slot_selected(at(0));
    let mut acked = observation(0);
    acked.acknowledged_slot = Some(6);
    machine.advance(acked);
    machine.aim_started(at(0));
    let mut settled = observation(0);
    settled.aim_settled = true;
    machine.advance(settled);
    machine.thrown(at(0));
    let action = machine.advance(observation(LAUNCH_TIMEOUT));
    assert_eq!(
        action,
        WindLaunchAction::Failed {
            reason: WindLaunchFailure::NeverLaunched,
            retry_in: ATTEMPT_COOLDOWN,
        }
    );
    assert_eq!(machine.state(), WindLaunchState::Idle);
}

#[test]
fn a_small_incidental_hop_does_not_count_as_a_launch() {
    let mut machine = WindLaunchMachine::new(at(0));
    machine.begin(at(0));
    machine.slot_selected(at(0));
    let mut acked = observation(0);
    acked.acknowledged_slot = Some(6);
    machine.advance(acked);
    machine.aim_started(at(0));
    let mut settled = observation(0);
    settled.aim_settled = true;
    machine.advance(settled);
    machine.thrown(at(0));
    let mut hop = observation(100);
    hop.on_ground = false;
    hop.velocity_y_milli = 420;
    assert_eq!(machine.advance(hop), WindLaunchAction::Wait);
}

#[test]
fn wind_launch_no_state_can_persist_past_its_deadline() {
    for setup in 0..3 {
        let mut machine = WindLaunchMachine::new(at(0));
        machine.begin(at(0));
        if setup >= 1 {
            machine.slot_selected(at(0));
        }
        if setup >= 2 {
            let mut acked = observation(0);
            acked.acknowledged_slot = Some(6);
            machine.advance(acked);
            machine.aim_started(at(0));
        }
        let action = machine.advance(observation(60_000));
        if setup == 0 {
            assert_eq!(action, WindLaunchAction::SelectSlot);
        } else {
            assert!(
                matches!(action, WindLaunchAction::Failed { .. }),
                "setup {setup} hung in {:?}",
                machine.state()
            );
            assert_eq!(machine.state(), WindLaunchState::Idle);
        }
    }
}

#[test]
fn wind_launch_out_of_order_transitions_are_ignored_rather_than_corrupting_the_state() {
    let mut machine = WindLaunchMachine::new(at(0));
    machine.slot_selected(at(0));
    machine.aim_started(at(0));
    machine.thrown(at(0));
    assert_eq!(machine.state(), WindLaunchState::Idle);
}

#[test]
fn resetting_clears_the_cooldown_too() {
    let mut machine = launch_successfully();
    assert!(!machine.ready_to_start(at(500)));
    machine.reset(at(500));
    assert!(machine.ready_to_start(at(500)), "a fight reset clears everything");
}

#[test]
fn wind_launch_failures_describe_themselves_for_logging() {
    assert_eq!(WindLaunchFailure::NeverLaunched.label(), "no launch detected");
    assert_eq!(
        WindLaunchFailure::SlotNotAcknowledged.label(),
        "hotbar slot never acknowledged"
    );
    assert_eq!(
        WindLaunchFailure::AimNeverSettled.label(),
        "camera never settled facing down"
    );
}

#[test]
fn wind_launch_waits_until_the_reserved_slot_is_acknowledged() {
    let mut machine = WindLaunchMachine::new(at(0));
    machine.begin(at(0));
    assert_eq!(machine.advance(observation(0)), WindLaunchAction::SelectSlot);
    machine.slot_selected(at(0));
    let mut old_weapon = observation(100);
    old_weapon.acknowledged_slot = Some(8);
    assert_eq!(machine.advance(old_weapon), WindLaunchAction::Wait);
    assert_eq!(machine.state(), WindLaunchState::WaitingForSlotAck);
    let mut acked = observation(150);
    acked.acknowledged_slot = Some(6);
    assert_eq!(machine.advance(acked), WindLaunchAction::AimDown);
}
