use magic_bot::container::model::{
    BlockPosition, ClickButton, ContainerKind, ContainerOutcome, ContainerPhase, MenuSnapshot,
    StackSnapshot, TransferDirection, TransferPlan,
};
use magic_bot::container::planner::{plan_transfer, PlanError};
use magic_bot::container::state_machine::ContainerMachine;

fn stack(id: &str, n: u32) -> Option<StackSnapshot> {
    Some(StackSnapshot { item_id: id.into(), count: n, max_count: 64 })
}

fn chest(contents: Vec<Option<StackSnapshot>>, player: Vec<Option<StackSnapshot>>) -> MenuSnapshot {
    MenuSnapshot {
        kind: ContainerKind::SingleChest,
        position: None,
        window_id: 4,
        revision: 7,
        container_slots: contents,
        player_slots: player,
    }
}

#[test]
fn maps_chest_and_player_slots() {
    let m = chest(vec![stack("x", 3); 27], vec![None; 36]);
    let p = plan_transfer(&m, TransferDirection::Take, "x", 3, false).unwrap();
    assert_eq!(p.clicks[0].slot, 0);
    assert_eq!(p.clicks[1].slot, 27);
}

#[test]
fn exact_partial_stack_uses_right_clicks_and_returns_cursor() {
    let p = plan_transfer(&chest(vec![stack("x", 10)], vec![None]), TransferDirection::Take, "x", 3, false)
        .unwrap();
    assert_eq!(p.planned, 3);
    assert_eq!(p.clicks.len(), 5);
    assert_eq!(p.clicks.last().unwrap().slot, 0);
}

#[test]
fn full_stack_is_two_clicks() {
    let p = plan_transfer(&chest(vec![stack("x", 64)], vec![None]), TransferDirection::Take, "x", 64, false)
        .unwrap();
    assert_eq!(p.clicks.len(), 2);
    assert!(p.clicks.iter().all(|c| c.button == ClickButton::Left));
}

#[test]
fn missing_and_full_are_distinct() {
    assert_eq!(
        plan_transfer(&chest(vec![None], vec![None]), TransferDirection::Take, "x", 1, true),
        Err(PlanError::ItemNotFound)
    );
    assert_eq!(
        plan_transfer(&chest(vec![stack("x", 1)], vec![stack("y", 64)]), TransferDirection::Take, "x", 1, true),
        Err(PlanError::DestinationFull)
    );
}

#[test]
fn partial_policy_is_enforced() {
    let m = chest(vec![stack("x", 2)], vec![None]);
    assert_eq!(
        plan_transfer(&m, TransferDirection::Take, "x", 3, false),
        Err(PlanError::PartialOnly { available: 2 })
    );
    assert_eq!(plan_transfer(&m, TransferDirection::Take, "x", 3, true).unwrap().planned, 2);
}

#[test]
fn store_offsets_player_source() {
    let p = plan_transfer(&chest(vec![None; 27], vec![stack("x", 2)]), TransferDirection::Store, "x", 2, false)
        .unwrap();
    assert_eq!(p.clicks[0].slot, 27);
    assert_eq!(p.clicks[1].slot, 0);
}

#[test]
fn fills_multiple_destination_slots_deterministically() {
    let p = plan_transfer(
        &chest(vec![stack("x", 64), stack("x", 1)], vec![None, None]),
        TransferDirection::Take,
        "x",
        65,
        false,
    )
    .unwrap();
    assert_eq!(p.planned, 65);
    assert!(p.clicks.iter().any(|click| click.slot == 3));
}

#[test]
fn a_zero_count_is_an_invalid_request() {
    let m = chest(vec![stack("x", 2)], vec![None]);
    assert_eq!(plan_transfer(&m, TransferDirection::Take, "x", 0, true), Err(PlanError::InvalidCount));
}

#[test]
fn the_plan_records_the_menu_it_was_made_for() {
    let m = chest(vec![stack("x", 2)], vec![None]);
    let p = plan_transfer(&m, TransferDirection::Take, "x", 2, false).unwrap();
    assert_eq!((p.expected_window, p.expected_revision), (4, 7));
    assert_eq!((p.requested, p.planned), (2, 2));
    assert_eq!(p.item_id, "x");
}

fn menu() -> MenuSnapshot {
    MenuSnapshot {
        kind: ContainerKind::SingleChest,
        position: None,
        window_id: 2,
        revision: 4,
        container_slots: vec![None; 27],
        player_slots: vec![None; 36],
    }
}

#[test]
fn wrong_menu_and_revision_race_release_ownership() {
    let mut m = ContainerMachine::default();
    m.begin(BlockPosition::default()).unwrap();
    let mut x = menu();
    x.kind = ContainerKind::DoubleChest;
    x.container_slots = vec![None; 54];
    m.menu_opened(&x).unwrap();
    let p = TransferPlan {
        direction: TransferDirection::Take,
        item_id: "x".into(),
        requested: 1,
        planned: 1,
        clicks: vec![],
        expected_window: 2,
        expected_revision: 3,
    };
    assert_eq!(m.begin_transfer(&p), Err(ContainerOutcome::InventoryConflict));
    assert!(!m.owns_inventory());
}

#[test]
fn rejection_partial_cancel_and_cleanup() {
    let mut m = ContainerMachine::default();
    m.begin(BlockPosition::default()).unwrap();
    m.menu_opened(&menu()).unwrap();
    let p = TransferPlan {
        direction: TransferDirection::Take,
        item_id: "x".into(),
        requested: 4,
        planned: 2,
        clicks: vec![],
        expected_window: 2,
        expected_revision: 4,
    };
    m.begin_transfer(&p).unwrap();
    assert_eq!(m.confirm(2, 4, 0), Err(ContainerOutcome::ServerRejected));
    assert!(!m.owns_inventory());
    m.begin(BlockPosition::default()).unwrap();
    m.menu_opened(&menu()).unwrap();
    m.begin_transfer(&p).unwrap();
    m.confirm(2, 5, 2).unwrap();
    assert_eq!(m.status.outcome, Some(ContainerOutcome::TransferPartial));
    m.cancel();
    assert!(!m.owns_inventory());
}

#[test]
fn disconnect_death_timeout_and_removed_are_representable() {
    for o in [
        ContainerOutcome::Disconnected,
        ContainerOutcome::Died,
        ContainerOutcome::TimedOut,
        ContainerOutcome::BlockedOrRemoved,
        ContainerOutcome::TargetUnreachable,
    ] {
        let mut m = ContainerMachine::default();
        m.begin(BlockPosition::default()).unwrap();
        let _: Result<(), _> = m.fail(o.clone());
        assert_eq!(m.status.outcome, Some(o));
        assert!(!m.owns_inventory());
    }
}

#[test]
fn a_second_task_is_refused_while_the_first_owns_the_inventory() {
    let mut m = ContainerMachine::default();
    m.begin(BlockPosition { x: 1, y: 2, z: 3 }).unwrap();
    assert_eq!(m.begin(BlockPosition::default()), Err(ContainerOutcome::InventoryConflict));
    assert_eq!(m.status.target, Some(BlockPosition { x: 1, y: 2, z: 3 }));
    m.close();
    assert_eq!(m.status.phase, ContainerPhase::Completed);
    assert!(m.begin(BlockPosition::default()).is_ok());
}

#[test]
fn a_full_transfer_completes_and_moves_the_expected_revision() {
    let mut m = ContainerMachine::default();
    m.begin(BlockPosition::default()).unwrap();
    m.menu_opened(&menu()).unwrap();
    assert!(!m.revision_changed(4));
    let p = TransferPlan {
        direction: TransferDirection::Store,
        item_id: "x".into(),
        requested: 3,
        planned: 3,
        clicks: vec![],
        expected_window: 2,
        expected_revision: 4,
    };
    m.begin_transfer(&p).unwrap();
    assert_eq!(m.status.phase, ContainerPhase::Transferring);
    m.confirm(2, 9, 3).unwrap();
    assert_eq!(m.status.outcome, Some(ContainerOutcome::TransferCompleted));
    assert!(m.revision_changed(4));
    assert!(!m.revision_changed(9));
    assert_eq!(m.confirm(3, 10, 1), Err(ContainerOutcome::ContainerClosedUnexpectedly));
}

/// Replays clicks on the amounts of `item` per protocol slot, the way the
/// server applies pickup clicks: left picks up or puts down as much as
/// fits, right puts down one.
fn replay(menu: &MenuSnapshot, item: &str, clicks: &[magic_bot::container::model::InventoryClick]) -> (Vec<u32>, u32) {
    let mut held: Vec<u32> = menu
        .container_slots
        .iter()
        .chain(menu.player_slots.iter())
        .map(|slot| match slot {
            Some(s) if s.item_id == item => s.count,
            _ => 0,
        })
        .collect();
    let mut cursor = 0u32;
    for click in clicks {
        let here = held[click.slot];
        match click.button {
            ClickButton::Left if cursor == 0 => {
                cursor = here;
                held[click.slot] = 0;
            }
            ClickButton::Left => {
                let moved = cursor.min(64 - here);
                held[click.slot] += moved;
                cursor -= moved;
            }
            ClickButton::Right => {
                assert!(cursor > 0 && here < 64);
                held[click.slot] += 1;
                cursor -= 1;
            }
        }
    }
    (held, cursor)
}

#[test]
fn replaying_a_take_moves_exactly_the_planned_amount() {
    let m = chest(vec![stack("x", 10), stack("y", 5), stack("x", 40)], vec![stack("x", 60), None, stack("z", 1)]);
    let p = plan_transfer(&m, TransferDirection::Take, "x", 45, false).unwrap();
    assert_eq!(p.planned, 45);
    let (held, cursor) = replay(&m, "x", &p.clicks);
    assert_eq!(cursor, 0);
    assert_eq!(held[0] + held[1] + held[2], 50 - 45);
    assert_eq!(held[3] + held[4] + held[5], 60 + 45);
    assert!(p.clicks.iter().all(|c| c.slot != 1 && c.slot != 5));
}

#[test]
fn replaying_a_partial_store_moves_what_fits() {
    let m = chest(vec![stack("x", 62), stack("w", 64)], vec![stack("x", 7), stack("x", 3)]);
    let p = plan_transfer(&m, TransferDirection::Store, "x", 10, true).unwrap();
    assert_eq!(p.planned, 2);
    let (held, cursor) = replay(&m, "x", &p.clicks);
    assert_eq!(cursor, 0);
    assert_eq!(held[0], 64);
    assert_eq!(held[2] + held[3], 8);
}
