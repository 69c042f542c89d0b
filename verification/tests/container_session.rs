use magic_bot::container::model::{
    BlockPosition, ContainerKind, ContainerOutcome, ContainerPhase, MenuSnapshot, StackSnapshot,
    TransferDirection,
};
use magic_bot::container::planner::PlanError;
use magic_bot::container::session::{
    count_matching, transfer_counts_ok, ContainerSession, LookProgress, NavigationProgress, OpenRefusal,
    TickStep, TransferRefusal, CLICK_DELAY, OPEN_MENU_TIMEOUT, TASK_TIMEOUT,
};

// Times are milliseconds on the service's own clock.

fn stack(id: &str, n: u32) -> Option<StackSnapshot> {
    Some(StackSnapshot { item_id: id.into(), count: n, max_count: 64 })
}

fn chest(revision: u32, contents: Vec<Option<StackSnapshot>>, player: Vec<Option<StackSnapshot>>) -> MenuSnapshot {
    MenuSnapshot {
        kind: ContainerKind::SingleChest,
        position: None,
        window_id: 4,
        revision,
        container_slots: contents,
        player_slots: player,
    }
}

const TARGET: BlockPosition = BlockPosition { x: 10, y: 64, z: -3 };

/// A session with the chest at `TARGET` open at revision 7.
fn opened(menu: &MenuSnapshot) -> ContainerSession {
    let mut s = ContainerSession::new();
    s.open(Some("minecraft:chest".into()), TARGET, 0).unwrap();
    assert_eq!(s.begin_tick(1, true, Some(true)), TickStep::PollNavigation);
    let face = s.on_navigation(NavigationProgress::Reached);
    assert_eq!(face, Some((TARGET, Some("minecraft:chest".to_string()))));
    assert_eq!(s.begin_tick(2, true, Some(true)), TickStep::PollLook);
    assert_eq!(s.on_look(LookProgress::Completed), Some(TARGET));
    s.on_interact(true);
    assert_eq!(s.begin_tick(3, true, Some(true)), TickStep::PollMenu);
    s.on_menu(Some(menu), true, 3);
    assert_eq!(s.status().phase, ContainerPhase::Open);
    assert_eq!(s.status().outcome, Some(ContainerOutcome::Opened));
    s
}

#[test]
fn a_new_session_is_idle_and_does_nothing() {
    let mut s = ContainerSession::new();
    assert_eq!(s.status().phase, ContainerPhase::Idle);
    assert_eq!(s.begin_tick(100, false, Some(false)), TickStep::Idle);
    assert_eq!(s.status().phase, ContainerPhase::Idle);
}

#[test]
fn an_unloaded_target_is_refused_without_a_change() {
    let mut s = ContainerSession::new();
    assert_eq!(s.open(None, TARGET, 0), Err(OpenRefusal::ChunkUnloaded));
    assert_eq!(s.status().phase, ContainerPhase::Idle);
}

#[test]
fn a_block_that_is_no_chest_fails_the_task() {
    let mut s = ContainerSession::new();
    assert_eq!(s.open(Some("minecraft:barrel".into()), TARGET, 0), Err(OpenRefusal::NotAChest));
    assert_eq!(s.status().phase, ContainerPhase::Failed);
    assert_eq!(s.status().outcome, Some(ContainerOutcome::TargetNotFound));
}

#[test]
fn a_trapped_chest_is_a_chest() {
    let mut s = ContainerSession::new();
    assert_eq!(s.open(Some("minecraft:trapped_chest".into()), TARGET, 0), Ok(()));
    assert_eq!(s.status().phase, ContainerPhase::Navigating);
    assert_eq!(s.status().target, Some(TARGET));
}

#[test]
fn opening_a_second_chest_is_refused_while_the_first_task_runs() {
    let mut s = ContainerSession::new();
    s.open(Some("minecraft:chest".into()), TARGET, 0).unwrap();
    assert_eq!(s.open(Some("minecraft:chest".into()), TARGET, 0), Err(OpenRefusal::Busy));
    assert_eq!(s.status().phase, ContainerPhase::Navigating);
}

#[test]
fn a_disconnect_death_or_timeout_stops_the_task_in_that_order() {
    let mut s = ContainerSession::new();
    s.open(Some("minecraft:chest".into()), TARGET, 0).unwrap();
    assert_eq!(s.begin_tick(TASK_TIMEOUT + 1, false, Some(false)), TickStep::Stopped);
    assert_eq!(s.status().outcome, Some(ContainerOutcome::Disconnected));

    let mut s = ContainerSession::new();
    s.open(Some("minecraft:chest".into()), TARGET, 0).unwrap();
    assert_eq!(s.begin_tick(TASK_TIMEOUT + 1, true, Some(false)), TickStep::Stopped);
    assert_eq!(s.status().outcome, Some(ContainerOutcome::Died));

    let mut s = ContainerSession::new();
    s.open(Some("minecraft:chest".into()), TARGET, 0).unwrap();
    assert_eq!(s.begin_tick(TASK_TIMEOUT, true, None), TickStep::PollNavigation);
    assert_eq!(s.begin_tick(TASK_TIMEOUT + 1, true, None), TickStep::Stopped);
    assert_eq!(s.status().outcome, Some(ContainerOutcome::TimedOut));
    assert_eq!(s.status().phase, ContainerPhase::Failed);
}

#[test]
fn an_unreachable_chest_fails_the_task() {
    let mut s = ContainerSession::new();
    s.open(Some("minecraft:chest".into()), TARGET, 0).unwrap();
    assert_eq!(s.on_navigation(NavigationProgress::Pending), None);
    assert_eq!(s.status().phase, ContainerPhase::Navigating);
    assert_eq!(s.on_navigation(NavigationProgress::Failed), None);
    assert_eq!(s.status().outcome, Some(ContainerOutcome::TargetUnreachable));
}

#[test]
fn a_failed_interaction_or_another_menu_fails_the_task() {
    let mut s = ContainerSession::new();
    s.open(Some("minecraft:chest".into()), TARGET, 0).unwrap();
    s.on_navigation(NavigationProgress::Reached);
    s.on_look(LookProgress::Completed);
    s.on_interact(false);
    assert_eq!(s.status().outcome, Some(ContainerOutcome::BlockedOrRemoved));

    let mut s = ContainerSession::new();
    s.open(Some("minecraft:chest".into()), TARGET, 0).unwrap();
    s.on_navigation(NavigationProgress::Reached);
    s.on_look(LookProgress::Completed);
    s.on_interact(true);
    s.on_menu(None, false, 10);
    assert_eq!(s.status().phase, ContainerPhase::AwaitingMenu);
    s.on_menu(None, true, 10);
    assert_eq!(s.status().outcome, Some(ContainerOutcome::WrongMenu));
}

#[test]
fn an_open_chest_waits_an_hour_for_the_next_request() {
    let menu = chest(7, vec![stack("minecraft:dirt", 5)], vec![None]);
    let mut s = opened(&menu);
    assert_eq!(s.begin_tick(3 + OPEN_MENU_TIMEOUT, true, None), TickStep::CheckMenuOpen);
    s.on_menu_check(true);
    assert_eq!(s.status().phase, ContainerPhase::Open);
    s.on_menu_check(false);
    assert_eq!(s.status().outcome, Some(ContainerOutcome::ContainerClosedUnexpectedly));
}

#[test]
fn a_transfer_clicks_one_slot_per_click_delay_and_then_confirms() {
    let menu = chest(7, vec![stack("minecraft:dirt", 5)], vec![None]);
    let mut s = opened(&menu);
    assert!(transfer_counts_ok(&menu, TransferDirection::Take, "minecraft:dirt"));
    s.transfer(&menu, TransferDirection::Take, "minecraft:dirt".into(), 5, 100).unwrap();
    assert_eq!(s.status().phase, ContainerPhase::Transferring);
    assert_eq!(s.status().requested, 5);

    // Whole stack: pick it up, put it down.
    let first = s.begin_tick(100, true, Some(true));
    assert!(matches!(first, TickStep::Click { window: 4, click } if click.slot == 0));
    assert_eq!(s.begin_tick(100 + CLICK_DELAY - 1, true, Some(true)), TickStep::Idle);
    let second = s.begin_tick(100 + CLICK_DELAY, true, Some(true));
    assert!(matches!(second, TickStep::Click { window: 4, click } if click.slot == 1));
    assert_eq!(s.begin_tick(100 + 2 * CLICK_DELAY, true, Some(true)), TickStep::ConfirmTransfer);

    // The server has not moved yet: same revision, nothing happens.
    s.on_transfer_menu(&menu);
    assert_eq!(s.status().phase, ContainerPhase::Transferring);

    let after = chest(8, vec![None], vec![stack("minecraft:dirt", 5)]);
    assert!(s.confirmation_ok(&after));
    s.on_transfer_menu(&after);
    assert_eq!(s.status().phase, ContainerPhase::Open);
    assert_eq!(s.status().transferred, 5);
    assert_eq!(s.status().outcome, Some(ContainerOutcome::TransferCompleted));
}

#[test]
fn a_partial_move_is_reported_partial() {
    let menu = chest(7, vec![stack("minecraft:dirt", 5)], vec![None]);
    let mut s = opened(&menu);
    s.transfer(&menu, TransferDirection::Take, "minecraft:dirt".into(), 5, 100).unwrap();
    let after = chest(8, vec![stack("minecraft:dirt", 2)], vec![stack("minecraft:dirt", 3)]);
    s.on_transfer_menu(&after);
    assert_eq!(s.status().transferred, 3);
    assert_eq!(s.status().outcome, Some(ContainerOutcome::TransferPartial));
}

#[test]
fn a_new_revision_that_moved_nothing_is_a_rejection() {
    let menu = chest(7, vec![stack("minecraft:dirt", 5)], vec![None]);
    let mut s = opened(&menu);
    s.transfer(&menu, TransferDirection::Take, "minecraft:dirt".into(), 5, 100).unwrap();
    s.on_transfer_menu(&chest(8, vec![stack("minecraft:dirt", 5)], vec![None]));
    assert_eq!(s.status().outcome, Some(ContainerOutcome::ServerRejected));
    assert_eq!(s.status().phase, ContainerPhase::Failed);
}

#[test]
fn a_refused_plan_fails_the_task_with_the_matching_outcome() {
    let menu = chest(7, vec![stack("minecraft:dirt", 5)], vec![None]);
    let mut s = opened(&menu);
    assert_eq!(
        s.transfer(&menu, TransferDirection::Take, "minecraft:stone".into(), 1, 100),
        Err(TransferRefusal::Plan(PlanError::ItemNotFound))
    );
    assert_eq!(s.status().outcome, Some(ContainerOutcome::ItemNotFound));

    let mut s = opened(&menu);
    assert_eq!(
        s.transfer(&menu, TransferDirection::Take, "minecraft:dirt".into(), 0, 100),
        Err(TransferRefusal::Plan(PlanError::InvalidCount))
    );
    assert_eq!(s.status().outcome, Some(ContainerOutcome::ServerRejected));
}

#[test]
fn a_plan_for_a_stale_revision_is_an_inventory_conflict() {
    let menu = chest(7, vec![stack("minecraft:dirt", 5)], vec![None]);
    let mut s = opened(&menu);
    let stale = chest(9, vec![stack("minecraft:dirt", 5)], vec![None]);
    assert_eq!(
        s.transfer(&stale, TransferDirection::Take, "minecraft:dirt".into(), 5, 100),
        Err(TransferRefusal::Rejected(ContainerOutcome::InventoryConflict))
    );
    assert_eq!(s.status().phase, ContainerPhase::Failed);
}

#[test]
fn a_failed_click_is_an_inventory_conflict_and_drops_the_rest() {
    let menu = chest(7, vec![stack("minecraft:dirt", 5)], vec![None]);
    let mut s = opened(&menu);
    s.transfer(&menu, TransferDirection::Take, "minecraft:dirt".into(), 5, 100).unwrap();
    s.begin_tick(100, true, None);
    s.on_click_failed();
    assert_eq!(s.status().outcome, Some(ContainerOutcome::InventoryConflict));
    assert_eq!(s.begin_tick(1000, true, None), TickStep::Idle);
}

#[test]
fn closing_and_cancelling_release_the_task() {
    let menu = chest(7, vec![stack("minecraft:dirt", 5)], vec![None]);
    let mut s = opened(&menu);
    s.close();
    assert_eq!(s.status().phase, ContainerPhase::Completed);
    // A released inventory can be claimed by the next task.
    assert_eq!(s.open(Some("minecraft:chest".into()), TARGET, 0), Ok(()));
    s.cancel();
    assert_eq!(s.status().phase, ContainerPhase::Cancelled);
    assert_eq!(s.status().outcome, Some(ContainerOutcome::Cancelled));
}

#[test]
fn counting_matches_every_stack_for_an_empty_item() {
    let menu = chest(7, vec![stack("a", 2), None, stack("b", 3)], vec![stack("a", 9)]);
    assert_eq!(count_matching(&menu, TransferDirection::Take, "a"), 2);
    assert_eq!(count_matching(&menu, TransferDirection::Take, ""), 5);
    assert_eq!(count_matching(&menu, TransferDirection::Store, "a"), 9);
}
