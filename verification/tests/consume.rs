use magic_bot::combat::consume::{
    ConsumeAction, ConsumeFailure, ConsumeLimits, ConsumeMachine, ConsumeObservation, ConsumeState,
    RESTORE_TIMEOUT, SLOT_ACK_TIMEOUT, USE_TIMEOUT,
};

fn at(millis: u64) -> u64 {
    1_000_000 + millis
}

fn observation(millis: u64) -> ConsumeObservation {
    ConsumeObservation {
        acknowledged_slot: None,
        held_count: 3,
        weapon_restored: false,
        now: at(millis),
    }
}

fn limits() -> ConsumeLimits {
    ConsumeLimits::default()
}

fn consume_successfully() -> ConsumeMachine {
    let mut machine = ConsumeMachine::new(at(0));
    machine.begin("minecraft:golden_apple".into(), 7, 3, at(0));
    assert_eq!(
        machine.advance(observation(0), &limits()),
        ConsumeAction::SelectSlot { hotbar_index: 7 }
    );
    machine.slot_selected(at(50));
    let mut acked = observation(100);
    acked.acknowledged_slot = Some(7);
    assert_eq!(machine.advance(acked, &limits()), ConsumeAction::StartUse);
    machine.use_started(3, at(100));
    assert_eq!(machine.advance(observation(800), &limits()), ConsumeAction::Wait);
    let mut eaten = observation(1700);
    eaten.held_count = 2;
    assert_eq!(machine.advance(eaten, &limits()), ConsumeAction::RestoreWeapon);
    machine.restore_started(at(1700));
    let mut restored = observation(1750);
    restored.held_count = 2;
    restored.weapon_restored = true;
    assert_eq!(machine.advance(restored, &limits()), ConsumeAction::Finished);
    machine
}

#[test]
fn consume_a_new_machine_is_idle_and_ready() {
    let machine = ConsumeMachine::new(at(0));
    assert_eq!(machine.state(), ConsumeState::Idle);
    assert!(machine.ready_to_start(at(0)));
    assert!(!machine.state().is_active());
    assert!(!machine.state().blocks_combat());
}

#[test]
fn a_golden_apple_is_consumed_end_to_end() {
    let machine = consume_successfully();
    assert_eq!(machine.state(), ConsumeState::Idle);
    assert_eq!(machine.attempts(), 0, "a success clears the retry budget");
    assert!(machine.ready_to_start(at(1750)));
}

#[test]
fn combat_is_blocked_for_the_whole_bite_and_released_for_the_restore() {
    let mut machine = ConsumeMachine::new(at(0));
    machine.begin("minecraft:golden_apple".into(), 7, 3, at(0));
    assert!(machine.state().blocks_combat(), "preparing");
    machine.slot_selected(at(50));
    assert!(machine.state().blocks_combat(), "waiting for ack");
    machine.use_started(3, at(100));
    assert!(machine.state().blocks_combat(), "using");
    let mut eaten = observation(1700);
    eaten.held_count = 2;
    machine.advance(eaten, &limits());
    assert!(machine.state().blocks_combat(), "consumed");
    machine.restore_started(at(1700));
    assert!(
        !machine.state().blocks_combat(),
        "the bite is over; restoring is itself a weapon swap"
    );
    assert!(
        machine.state().holds_hand(),
        "but the hand is still the consume's until it finishes"
    );
}

#[test]
fn use_is_not_sent_until_the_server_acknowledges_the_slot() {
    let mut machine = ConsumeMachine::new(at(0));
    machine.begin("minecraft:golden_apple".into(), 7, 3, at(0));
    machine.slot_selected(at(0));
    assert_eq!(machine.advance(observation(100), &limits()), ConsumeAction::Wait);
    let mut wrong = observation(200);
    wrong.acknowledged_slot = Some(2);
    assert_eq!(machine.advance(wrong, &limits()), ConsumeAction::Wait);
    let mut right = observation(300);
    right.acknowledged_slot = Some(7);
    assert_eq!(machine.advance(right, &limits()), ConsumeAction::StartUse);
}

#[test]
fn a_slow_acknowledgement_still_lands_within_the_timeout() {
    let mut machine = ConsumeMachine::new(at(0));
    machine.begin("minecraft:golden_apple".into(), 7, 3, at(0));
    machine.slot_selected(at(0));
    let mut late = observation(SLOT_ACK_TIMEOUT - 1);
    late.acknowledged_slot = Some(7);
    assert_eq!(machine.advance(late, &limits()), ConsumeAction::StartUse);
}

#[test]
fn consume_an_unacknowledged_slot_fails_and_schedules_a_retry() {
    let mut machine = ConsumeMachine::new(at(0));
    machine.begin("minecraft:golden_apple".into(), 7, 3, at(0));
    machine.slot_selected(at(0));
    let action = machine.advance(observation(SLOT_ACK_TIMEOUT), &limits());
    assert_eq!(
        action,
        ConsumeAction::Failed {
            reason: ConsumeFailure::SlotNotAcknowledged,
            retry_in: Some(limits().retry_delay),
        }
    );
    assert_eq!(machine.state(), ConsumeState::Idle);
}

#[test]
fn an_interrupted_bite_is_detected_and_retried() {
    let mut machine = ConsumeMachine::new(at(0));
    machine.begin("minecraft:golden_apple".into(), 7, 3, at(0));
    machine.slot_selected(at(0));
    machine.use_started(3, at(0));
    assert_eq!(machine.advance(observation(1000), &limits()), ConsumeAction::Wait);
    let action = machine.advance(observation(USE_TIMEOUT), &limits());
    assert_eq!(
        action,
        ConsumeAction::Failed {
            reason: ConsumeFailure::Interrupted,
            retry_in: Some(limits().retry_delay),
        }
    );
    assert_eq!(machine.state(), ConsumeState::Idle);
}

#[test]
fn a_retry_waits_for_the_delay_rather_than_firing_every_tick() {
    let mut machine = ConsumeMachine::new(at(0));
    machine.begin("minecraft:golden_apple".into(), 7, 3, at(0));
    machine.slot_selected(at(0));
    machine.use_started(3, at(0));
    machine.advance(observation(USE_TIMEOUT), &limits());
    let failed_at = USE_TIMEOUT;
    assert!(!machine.ready_to_start(at(failed_at + 50)), "too soon");
    assert!(machine.ready_to_start(at(failed_at + 150)));
}

#[test]
fn the_retry_budget_is_finite() {
    let mut machine = ConsumeMachine::new(at(0));
    let limits = ConsumeLimits {
        retry_limit: 3,
        retry_delay: 150,
    };
    let mut failures = 0;
    for attempt in 0..3u64 {
        let start = attempt * 3000;
        machine.begin("minecraft:golden_apple".into(), 7, 3, at(start));
        machine.slot_selected(at(start));
        machine.use_started(3, at(start));
        let action = machine.advance(observation(start + 2200), &limits);
        let ConsumeAction::Failed { retry_in, .. } = action else {
            panic!("expected a failure on attempt {attempt}");
        };
        failures += 1;
        if attempt < 2 {
            assert!(retry_in.is_some(), "attempt {attempt} should retry");
        } else {
            assert!(retry_in.is_none(), "the budget must run out");
        }
    }
    assert_eq!(failures, 3);
    assert!(
        machine.ready_to_start(at(999_999)),
        "exhausted means no more retries for this decision, not permanently stuck"
    );
}

#[test]
fn a_success_resets_the_budget_for_the_next_time_the_bot_is_low() {
    let mut machine = consume_successfully();
    assert_eq!(machine.attempts(), 0);
    machine.begin("minecraft:golden_apple".into(), 7, 2, at(9000));
    assert_eq!(machine.attempts(), 1, "counting starts again from scratch");
}

#[test]
fn a_stalled_weapon_restore_still_releases_the_hand() {
    let mut machine = ConsumeMachine::new(at(0));
    machine.begin("minecraft:golden_apple".into(), 7, 3, at(0));
    machine.slot_selected(at(0));
    machine.use_started(3, at(0));
    let mut eaten = observation(1700);
    eaten.held_count = 2;
    machine.advance(eaten, &limits());
    machine.restore_started(at(1700));
    let action = machine.advance(observation(1700 + RESTORE_TIMEOUT), &limits());
    assert_eq!(
        action,
        ConsumeAction::Failed {
            reason: ConsumeFailure::RestoreStalled,
            retry_in: None,
        }
    );
    assert_eq!(
        machine.state(),
        ConsumeState::Idle,
        "the hand must never stay locked by a failed restore"
    );
}

#[test]
fn withdrawing_the_decision_clears_everything() {
    let mut machine = ConsumeMachine::new(at(0));
    machine.begin("minecraft:golden_apple".into(), 7, 3, at(0));
    machine.slot_selected(at(0));
    machine.use_started(3, at(0));
    machine.reset(at(500));
    assert_eq!(machine.state(), ConsumeState::Idle);
    assert!(!machine.state().blocks_combat());
    assert!(machine.ready_to_start(at(500)), "no retry penalty for a withdrawal");
    assert_eq!(machine.attempts(), 0);
}

#[test]
fn consume_no_state_can_persist_past_its_deadline() {
    for setup in 0..3 {
        let mut machine = ConsumeMachine::new(at(0));
        machine.begin("minecraft:golden_apple".into(), 7, 3, at(0));
        if setup >= 1 {
            machine.slot_selected(at(0));
        }
        if setup >= 2 {
            machine.use_started(3, at(0));
        }
        let action = machine.advance(observation(60_000), &limits());
        if setup == 0 {
            assert_eq!(action, ConsumeAction::SelectSlot { hotbar_index: 7 });
        } else {
            assert!(
                matches!(action, ConsumeAction::Failed { .. }),
                "setup {setup} hung in {:?}",
                machine.state()
            );
            assert_eq!(machine.state(), ConsumeState::Idle);
        }
    }
}

#[test]
fn consume_out_of_order_transitions_are_ignored_rather_than_corrupting_the_state() {
    let mut machine = ConsumeMachine::new(at(0));
    machine.slot_selected(at(0));
    machine.use_started(3, at(0));
    machine.restore_started(at(0));
    assert_eq!(machine.state(), ConsumeState::Idle);
}

#[test]
fn consume_failures_describe_themselves_for_logging() {
    assert_eq!(ConsumeFailure::Interrupted.label(), "use interrupted");
    assert_eq!(
        ConsumeFailure::SlotNotAcknowledged.label(),
        "hotbar slot never acknowledged"
    );
    assert_eq!(ConsumeFailure::RestoreStalled.label(), "weapon restore stalled");
}

#[test]
fn the_item_being_eaten_is_reported_while_active() {
    let mut machine = ConsumeMachine::new(at(0));
    assert_eq!(machine.item_id(), None);
    machine.begin("minecraft:golden_apple".into(), 7, 3, at(0));
    assert_eq!(machine.item_id(), Some("minecraft:golden_apple"));
    machine.reset(at(10));
    assert_eq!(machine.item_id(), None);
}
