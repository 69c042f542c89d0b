//! One container task as the container service drives it, tick by tick:
//! opening a chest (navigate, face it, interact, wait for the menu), then
//! transfers (plan, click one slot per click delay, confirm against the
//! menu's next revision), until it is closed, cancelled or fails.
//!
//! The service itself only performs what a step asks for (navigation,
//! looking, clicks, menu reads) and hands back what it saw; every decision
//! is taken here. Times are milliseconds on the service's own clock.
use vstd::prelude::*;
use crate::container::model::{BlockPosition, ContainerOutcome, ContainerPhase, ContainerStatus, InventoryClick, MenuSnapshot, StackSnapshot, TransferDirection};
use crate::container::planner::{available_of, capacity_of, feasible_of, initial_caps, plan_clicks, plan_transfer, sources_of, transfer_fits, PlanError};
use crate::container::clicks::{destination_start, source_start};
use crate::container::state_machine::{failed, validating_status, ContainerMachine, ContainerModel};
use crate::text::str_equal;

verus! {

/// How long opening a chest, or one transfer, may take.
pub const TASK_TIMEOUT: u64 = 5000;

/// The pause between two clicks of a transfer.
pub const CLICK_DELAY: u64 = 75;

/// Once a chest is open the task waits this long (an hour) for the next
/// request before timing out.
pub const OPEN_MENU_TIMEOUT: u64 = 3_600_000;

/// Where block navigation towards the chest stands.
#[derive(Clone, Copy, Debug, PartialEq, Eq, Structural)]
pub enum NavigationProgress {
    Pending,
    Reached,
    Failed,
    Cancelled,
}

/// Where turning to face the chest stands.
#[derive(Clone, Copy, Debug, PartialEq, Eq, Structural)]
pub enum LookProgress {
    Pending,
    Completed,
    Failed,
    Cancelled,
}

/// Why a chest could not be opened.
#[derive(Clone, Copy, Debug, PartialEq, Eq, Structural)]
pub enum OpenRefusal {
    /// The target's chunk is not loaded, so its block is unknown.
    ChunkUnloaded,
    /// The target block is no chest.
    NotAChest,
    /// Another container task owns the inventory.
    Busy,
}

/// Why a transfer did not start.
#[derive(Clone, Copy, Debug, PartialEq, Eq, Structural)]
pub enum TransferRefusal {
    /// No plan could be made.
    Plan(PlanError),
    /// The plan does not match the open menu.
    Rejected(ContainerOutcome),
}

/// What the service should do this tick.
#[derive(Clone, Copy, Debug, PartialEq, Eq, Structural)]
pub enum TickStep {
    /// Nothing.
    Idle,
    /// The task just failed (disconnected, died or timed out).
    Stopped,
    /// Read block navigation and report it with `on_navigation`.
    PollNavigation,
    /// Read the look controller and report it with `on_look`.
    PollLook,
    /// Read the chest menu and report it with `on_menu`.
    PollMenu,
    /// Check that the chest menu is still open and report it with
    /// `on_menu_check`.
    CheckMenuOpen,
    /// Send this click on this window, and report failure with
    /// `on_click_failed`.
    Click { window: i32, click: InventoryClick },
    /// All clicks are sent: read the chest menu and report it with
    /// `on_transfer_menu`.
    ConfirmTransfer,
}

/// The task's state.
pub struct ContainerSession {
    machine: ContainerMachine,
    block_id: Option<String>,
    deadline: u64,
    clicks: Vec<InventoryClick>,
    next_click: usize,
    planned: u32,
    baseline: u32,
    direction: TransferDirection,
    item: String,
    last_click: Option<u64>,
}

/// The abstract content of a [`ContainerSession`].
pub struct SessionView {
    pub machine: ContainerModel,
    /// The chest's block id, once validated.
    pub block_id: Option<Seq<char>>,
    /// When the current step times out.
    pub deadline: u64,
    /// The clicks of the running transfer not sent yet.
    pub pending: Seq<InventoryClick>,
    /// How many items the running transfer should move.
    pub planned: u32,
    /// The matching item count on the source side before the transfer.
    pub baseline: u32,
    pub direction: TransferDirection,
    pub item: Seq<char>,
    /// When the last click was sent, if one was since the transfer began.
    pub last_click: Option<u64>,
}

impl View for ContainerSession {
    type V = SessionView;

    closed spec fn view(&self) -> SessionView {
        SessionView {
            machine: self.machine@,
            block_id: text_view(self.block_id),
            deadline: self.deadline,
            pending: self.clicks@.subrange(self.next_click as int, self.clicks@.len() as int),
            planned: self.planned,
            baseline: self.baseline,
            direction: self.direction,
            item: self.item@,
            last_click: self.last_click,
        }
    }
}

/// The text an optional string holds.
pub open spec fn text_view(s: Option<String>) -> Option<Seq<char>> {
    match s {
        Some(t) => Some(t@),
        None => None,
    }
}

/// Whether a task in `phase` is over (or never began).
pub open spec fn at_rest(phase: ContainerPhase) -> bool {
    phase == ContainerPhase::Idle || phase == ContainerPhase::Completed || phase == ContainerPhase::Failed
        || phase == ContainerPhase::Cancelled
}

/// `m` moved to `phase`.
pub open spec fn advanced(m: ContainerModel, phase: ContainerPhase) -> ContainerModel {
    ContainerModel { status: ContainerStatus { phase, ..m.status }, ..m }
}

/// `v` failed with `outcome`: the machine fails and unsent clicks drop.
pub open spec fn failed_view(v: SessionView, outcome: ContainerOutcome) -> SessionView {
    SessionView { machine: failed(v.machine, outcome), pending: Seq::empty(), ..v }
}

/// `now + span`, or the largest time when that overflows.
pub open spec fn later(now: u64, span: u64) -> u64 {
    if now + span > u64::MAX { u64::MAX } else { (now + span) as u64 }
}

/// Whether the next click is due: none was sent yet, or the click delay
/// has passed since the last one.
pub open spec fn click_due(last_click: Option<u64>, now: u64) -> bool {
    match last_click {
        None => true,
        Some(t) => now >= t && now - t >= CLICK_DELAY,
    }
}

/// Whether `id` names a chest.
pub open spec fn is_chest(id: Seq<char>) -> bool {
    id == "minecraft:chest"@ || id == "minecraft:trapped_chest"@
}

/// Whether `slot` counts towards a transfer of `item` (every stack counts
/// when `item` is empty).
pub open spec fn counts_toward(slot: Option<StackSnapshot>, item: Seq<char>) -> bool {
    slot is Some && (item.len() == 0 || slot->0.item_id@ == item)
}

/// How many items the slots hold that count towards `item`.
pub open spec fn matching_count(slots: Seq<Option<StackSnapshot>>, item: Seq<char>) -> int
    decreases slots.len(),
{
    if slots.len() == 0 {
        0
    } else {
        (if counts_toward(slots[0], item) { slots[0]->0.count as int } else { 0 }) + matching_count(slots.drop_first(), item)
    }
}

/// How many items on the source side of a transfer count towards `item`.
pub open spec fn menu_count(menu: MenuSnapshot, direction: TransferDirection, item: Seq<char>) -> int {
    matching_count(sources_of(menu, direction), item)
}

/// What the transfer that the menu confirms has moved: the drop on the
/// source side, at most the planned amount.
pub open spec fn confirmed_amount(v: SessionView, menu: MenuSnapshot) -> int {
    let current = menu_count(menu, v.direction, v.item);
    let moved = if v.baseline >= current { v.baseline - current } else { 0 };
    if moved < v.planned { moved } else { v.planned as int }
}

/// Whether [`ContainerSession::transfer`]'s counts fit their integers.
pub open spec fn transfer_counts_fit(menu: MenuSnapshot, direction: TransferDirection, item: Seq<char>) -> bool {
    &&& menu.container_slots@.len() + menu.player_slots@.len() <= usize::MAX
    &&& available_of(menu, direction, item) <= u32::MAX
    &&& capacity_of(menu, direction, item) <= u32::MAX
    &&& menu_count(menu, direction, item) <= u32::MAX
}

/// Whether [`ContainerSession::on_transfer_menu`]'s counts fit their
/// integers.
pub open spec fn confirmation_counts_fit(v: SessionView, menu: MenuSnapshot) -> bool {
    &&& menu_count(menu, v.direction, v.item) <= u32::MAX
    &&& v.machine.status.transferred + confirmed_amount(v, menu) <= u32::MAX
}

proof fn lemma_suffix_count_bounded(s: Seq<Option<StackSnapshot>>, i: int, item: Seq<char>)
    requires
        0 <= i <= s.len(),
    ensures
        0 <= matching_count(s.subrange(i, s.len() as int), item) <= matching_count(s, item),
    decreases s.len(),
{
    if s.len() == 0 {
        assert(s.subrange(i, s.len() as int) =~= s);
    } else if i == 0 {
        assert(s.subrange(0, s.len() as int) =~= s);
        lemma_suffix_count_bounded(s.drop_first(), 0, item);
        assert(s.drop_first().subrange(0, s.drop_first().len() as int) =~= s.drop_first());
    } else {
        lemma_suffix_count_bounded(s.drop_first(), i - 1, item);
        assert(s.drop_first().subrange(i - 1, s.drop_first().len() as int) =~= s.subrange(i, s.len() as int));
    }
}

fn stack_counts(slot: &Option<StackSnapshot>, item: &str) -> (r: bool)
    ensures
        r == counts_toward(*slot, item@),
{
    match slot {
        Some(s) => item.unicode_len() == 0 || str_equal(s.item_id.as_str(), item),
        None => false,
    }
}

/// How many items on the source side of a transfer in `direction` count
/// towards `item`.
pub fn count_matching(menu: &MenuSnapshot, direction: TransferDirection, item: &str) -> (n: u32)
    requires
        menu_count(*menu, direction, item@) <= u32::MAX,
    ensures
        n == menu_count(*menu, direction, item@),
{
    let slots = match direction {
        TransferDirection::Take => &menu.container_slots,
        TransferDirection::Store => &menu.player_slots,
    };
    assert(slots@ == sources_of(*menu, direction));
    let mut total: u32 = 0;
    let mut j: usize = slots.len();
    assert(slots@.subrange(j as int, j as int) =~= Seq::<Option<StackSnapshot>>::empty());
    while j > 0
        invariant
            j <= slots@.len(),
            total == matching_count(slots@.subrange(j as int, slots@.len() as int), item@),
            matching_count(slots@, item@) <= u32::MAX,
        decreases j,
    {
        let ghost tail = slots@.subrange(j as int, slots@.len() as int);
        j = j - 1;
        assert(slots@.subrange(j as int, slots@.len() as int).drop_first() =~= tail);
        proof {
            lemma_suffix_count_bounded(slots@, j as int, item@);
        }
        if stack_counts(&slots[j], item) {
            total = total + slots[j].as_ref().unwrap().count;
        }
    }
    assert(slots@.subrange(0, slots@.len() as int) =~= slots@);
    total
}

fn wide_count_matching(menu: &MenuSnapshot, direction: TransferDirection, item: &str) -> (n: u128)
    ensures
        n == menu_count(*menu, direction, item@),
{
    let slots = match direction {
        TransferDirection::Take => &menu.container_slots,
        TransferDirection::Store => &menu.player_slots,
    };
    assert(slots@ == sources_of(*menu, direction));
    let mut total: u128 = 0;
    let mut j: usize = slots.len();
    assert(slots@.subrange(j as int, j as int) =~= Seq::<Option<StackSnapshot>>::empty());
    while j > 0
        invariant
            j <= slots@.len(),
            total == matching_count(slots@.subrange(j as int, slots@.len() as int), item@),
            total <= (slots@.len() - j) * 0xFFFF_FFFF,
            slots@.len() <= usize::MAX,
        decreases j,
    {
        let ghost tail = slots@.subrange(j as int, slots@.len() as int);
        j = j - 1;
        assert(slots@.subrange(j as int, slots@.len() as int).drop_first() =~= tail);
        if stack_counts(&slots[j], item) {
            total = total + slots[j].as_ref().unwrap().count as u128;
        }
    }
    assert(slots@.subrange(0, slots@.len() as int) =~= slots@);
    total
}

/// Whether a transfer of `item` in `direction` on `menu` keeps every count
/// it works with inside its integer type.
pub fn transfer_counts_ok(menu: &MenuSnapshot, direction: TransferDirection, item: &str) -> (r: bool)
    ensures
        r == transfer_counts_fit(*menu, direction, item@),
{
    transfer_fits(menu, direction, item) && wide_count_matching(menu, direction, item) <= 0xFFFF_FFFFu128
}

impl ContainerSession {
    #[verifier::type_invariant]
    spec fn consistent(self) -> bool {
        &&& self.next_click <= self.clicks@.len()
        &&& self.machine@.status.phase == ContainerPhase::Transferring ==> self.machine@.status.window_id is Some
    }

    /// An idle task that owns nothing.
    pub fn new() -> (s: Self)
        ensures
            s@.machine.status.phase == ContainerPhase::Idle,
            s@.machine.status.outcome is None,
            s@.machine.status.requested == 0,
            s@.machine.status.transferred == 0,
            !s@.machine.owned,
            s@.machine.expected_revision is None,
            s@.block_id is None,
            s@.pending.len() == 0,
            s@.planned == 0,
            s@.baseline == 0,
            s@.direction == TransferDirection::Take,
            s@.item.len() == 0,
            s@.last_click is None,
    {
        let s = ContainerSession {
            machine: ContainerMachine::default(),
            block_id: None,
            deadline: 0,
            clicks: Vec::new(),
            next_click: 0,
            planned: 0,
            baseline: 0,
            direction: TransferDirection::Take,
            item: String::new(),
            last_click: None,
        };
        assert(s@.pending =~= Seq::<InventoryClick>::empty());
        s
    }

    /// What the task reports.
    pub fn status(&self) -> (s: &ContainerStatus)
        ensures
            *s == self@.machine.status,
    {
        self.machine.status()
    }

    fn drop_pending(&mut self)
        ensures
            final(self)@ == (SessionView { pending: Seq::empty(), ..old(self)@ }),
    {
        proof {
            use_type_invariant(&*self);
        }
        self.next_click = 0;
        self.clicks = Vec::new();
        assert(self@.pending =~= Seq::<InventoryClick>::empty());
    }

    fn fail_with(&mut self, outcome: ContainerOutcome)
        ensures
            final(self)@ == failed_view(old(self)@, outcome),
    {
        proof {
            use_type_invariant(&*self);
        }
        let _ = self.machine.fail::<()>(outcome);
        self.drop_pending();
    }

    /// Starts a task on the chest at `target`, whose block id is
    /// `block_id` (`None` when its chunk is not loaded). Refuses an
    /// unloaded target and (after failing the task with `TargetNotFound`) a
    /// block that is no chest; refuses without a change while another task
    /// owns the inventory. Otherwise the task navigates, with its deadline
    /// [`TASK_TIMEOUT`] from `now`.
    pub fn open(&mut self, block_id: Option<String>, target: BlockPosition, now: u64) -> (r: Result<(), OpenRefusal>)
        ensures
            block_id is None ==> r == Err::<(), OpenRefusal>(OpenRefusal::ChunkUnloaded) && final(self)@ == old(self)@,
            block_id is Some && !is_chest(block_id->0@) ==> r == Err::<(), OpenRefusal>(OpenRefusal::NotAChest)
                && final(self)@ == (SessionView { machine: failed(old(self)@.machine, ContainerOutcome::TargetNotFound), ..old(self)@ }),
            block_id is Some && is_chest(block_id->0@) && old(self)@.machine.owned
                ==> r == Err::<(), OpenRefusal>(OpenRefusal::Busy) && final(self)@ == old(self)@,
            block_id is Some && is_chest(block_id->0@) && !old(self)@.machine.owned ==> r is Ok && final(self)@ == (SessionView {
                machine: ContainerModel {
                    status: ContainerStatus { phase: ContainerPhase::Navigating, ..validating_status(target) },
                    owned: true,
                    ..old(self)@.machine
                },
                block_id: Some(block_id->0@),
                deadline: later(now, TASK_TIMEOUT),
                ..old(self)@
            }),
    {
        proof {
            use_type_invariant(&*self);
        }
        let id = match block_id {
            Some(id) => id,
            None => return Err(OpenRefusal::ChunkUnloaded),
        };
        if !(str_equal(id.as_str(), "minecraft:chest") || str_equal(id.as_str(), "minecraft:trapped_chest")) {
            let _ = self.machine.fail::<()>(ContainerOutcome::TargetNotFound);
            return Err(OpenRefusal::NotAChest);
        }
        if self.machine.begin(target).is_err() {
            return Err(OpenRefusal::Busy);
        }
        self.machine.advance(ContainerPhase::Navigating);
        self.block_id = Some(id);
        self.deadline = now.saturating_add(TASK_TIMEOUT);
        Ok(())
    }

    /// Plans and starts a transfer of `count` of `item` in `direction` on
    /// the open chest `menu`. The task first moves to `Planning`; a refused
    /// plan fails it (`ItemNotFound`, `DestinationFull`, or
    /// `ServerRejected` for a zero count), and a plan for another window or
    /// revision fails it with `InventoryConflict`. Otherwise the task is
    /// `Transferring` the feasible amount, with the plan's clicks pending,
    /// the source side's current count as the baseline, the first click
    /// due at once and the deadline [`TASK_TIMEOUT`] from `now`.
    pub fn transfer(
        &mut self,
        menu: &MenuSnapshot,
        direction: TransferDirection,
        item: String,
        count: u32,
        now: u64,
    ) -> (r: Result<(), TransferRefusal>)
        requires
            transfer_counts_fit(*menu, direction, item@),
        ensures
            ({
                let planning = SessionView { machine: advanced(old(self)@.machine, ContainerPhase::Planning), ..old(self)@ };
                let available = available_of(*menu, direction, item@);
                let capacity = capacity_of(*menu, direction, item@);
                &&& count == 0 ==> r == Err::<(), TransferRefusal>(TransferRefusal::Plan(PlanError::InvalidCount))
                    && final(self)@ == failed_view(planning, ContainerOutcome::ServerRejected)
                &&& count > 0 && available == 0 ==> r == Err::<(), TransferRefusal>(TransferRefusal::Plan(PlanError::ItemNotFound))
                    && final(self)@ == failed_view(planning, ContainerOutcome::ItemNotFound)
                &&& count > 0 && available > 0 && capacity == 0
                    ==> r == Err::<(), TransferRefusal>(TransferRefusal::Plan(PlanError::DestinationFull))
                        && final(self)@ == failed_view(planning, ContainerOutcome::DestinationFull)
                &&& count > 0 && available > 0 && capacity > 0
                    && (planning.machine.status.window_id != Some(menu.window_id)
                        || planning.machine.expected_revision != Some(menu.revision))
                    ==> r == Err::<(), TransferRefusal>(TransferRefusal::Rejected(ContainerOutcome::InventoryConflict))
                        && final(self)@ == (SessionView {
                            machine: failed(planning.machine, ContainerOutcome::InventoryConflict),
                            ..planning
                        })
                &&& count > 0 && available > 0 && capacity > 0
                    && planning.machine.status.window_id == Some(menu.window_id)
                    && planning.machine.expected_revision == Some(menu.revision)
                    ==> r is Ok
                        && final(self)@.machine == (ContainerModel {
                            status: ContainerStatus {
                                phase: ContainerPhase::Transferring,
                                requested: count,
                                ..planning.machine.status
                            },
                            ..planning.machine
                        })
                        && final(self)@.block_id == old(self)@.block_id
                        && final(self)@.deadline == later(now, TASK_TIMEOUT)
                        && final(self)@.planned == feasible_of(*menu, direction, item@, count)
                        && final(self)@.baseline == menu_count(*menu, direction, item@)
                        && final(self)@.direction == direction
                        && final(self)@.item == item@
                        && final(self)@.last_click is None
                        && final(self)@.pending == plan_clicks(sources_of(*menu, direction), 0, item@,
                            source_start(*menu, direction) as usize, destination_start(*menu, direction) as usize,
                            feasible_of(*menu, direction, item@, count) as u32, initial_caps(*menu, direction, item@))
                        && forall|k: int| 0 <= k < final(self)@.pending.len()
                            ==> (#[trigger] final(self)@.pending[k]).slot < menu.container_slots@.len() + menu.player_slots@.len()
            }),
    {
        proof {
            use_type_invariant(&*self);
        }
        self.machine.advance(ContainerPhase::Planning);
        let plan = match plan_transfer(menu, direction, item.as_str(), count, true) {
            Ok(plan) => plan,
            Err(error) => {
                let outcome = match error {
                    PlanError::ItemNotFound => ContainerOutcome::ItemNotFound,
                    PlanError::DestinationFull => ContainerOutcome::DestinationFull,
                    PlanError::PartialOnly { .. } => ContainerOutcome::DestinationFull,
                    PlanError::InvalidCount => ContainerOutcome::ServerRejected,
                };
                self.fail_with(outcome);
                return Err(TransferRefusal::Plan(error));
            },
        };
        let baseline = count_matching(menu, direction, item.as_str());
        if let Err(e) = self.machine.begin_transfer(&plan) {
            return Err(TransferRefusal::Rejected(e));
        }
        let planned = plan.planned;
        self.next_click = 0;
        self.clicks = plan.clicks;
        assert(self.clicks@.subrange(0, self.clicks@.len() as int) =~= self.clicks@);
        self.planned = planned;
        self.baseline = baseline;
        self.direction = direction;
        self.item = item;
        self.deadline = now.saturating_add(TASK_TIMEOUT);
        self.last_click = None;
        Ok(())
    }

    /// Closes the task after the menu was closed: it completes, releases
    /// the inventory and drops unsent clicks.
    pub fn close(&mut self)
        ensures
            final(self)@ == (SessionView {
                machine: ContainerModel {
                    status: ContainerStatus { phase: ContainerPhase::Completed, ..old(self)@.machine.status },
                    owned: false,
                    ..old(self)@.machine
                },
                pending: Seq::empty(),
                ..old(self)@
            }),
    {
        proof {
            use_type_invariant(&*self);
        }
        self.machine.advance(ContainerPhase::Closing);
        self.machine.close();
        self.drop_pending();
    }

    /// Cancels the task: it is cancelled, releases the inventory and drops
    /// unsent clicks.
    pub fn cancel(&mut self)
        ensures
            final(self)@ == (SessionView {
                machine: ContainerModel {
                    status: ContainerStatus {
                        phase: ContainerPhase::Cancelled,
                        outcome: Some(ContainerOutcome::Cancelled),
                        ..old(self)@.machine.status
                    },
                    owned: false,
                    ..old(self)@.machine
                },
                pending: Seq::empty(),
                ..old(self)@
            }),
    {
        proof {
            use_type_invariant(&*self);
        }
        self.machine.cancel();
        self.drop_pending();
    }

    /// The start of a tick at time `now`. A task at rest does nothing. A
    /// running one fails when the client is disconnected, then when the
    /// bot is dead, then when its deadline has passed. Otherwise the phase
    /// decides: poll navigation, the look controller or the menu, check
    /// the open menu, or -- transferring, once the click delay has passed
    /// -- send the next pending click, or confirm once none is left.
    pub fn begin_tick(&mut self, now: u64, connected: bool, alive: Option<bool>) -> (step: TickStep)
        ensures
            ({
                let v = old(self)@;
                let phase = v.machine.status.phase;
                if at_rest(phase) {
                    step == TickStep::Idle && final(self)@ == v
                } else if !connected {
                    step == TickStep::Stopped && final(self)@ == failed_view(v, ContainerOutcome::Disconnected)
                } else if alive == Some(false) {
                    step == TickStep::Stopped && final(self)@ == failed_view(v, ContainerOutcome::Died)
                } else if now > v.deadline {
                    step == TickStep::Stopped && final(self)@ == failed_view(v, ContainerOutcome::TimedOut)
                } else if phase == ContainerPhase::Navigating {
                    step == TickStep::PollNavigation && final(self)@ == v
                } else if phase == ContainerPhase::Aligning {
                    step == TickStep::PollLook && final(self)@ == v
                } else if phase == ContainerPhase::AwaitingMenu {
                    step == TickStep::PollMenu && final(self)@ == v
                } else if phase == ContainerPhase::Open {
                    step == TickStep::CheckMenuOpen && final(self)@ == v
                } else if phase == ContainerPhase::Transferring {
                    if !click_due(v.last_click, now) {
                        step == TickStep::Idle && final(self)@ == v
                    } else if v.pending.len() > 0 {
                        &&& v.machine.status.window_id is Some
                        &&& step == (TickStep::Click { window: v.machine.status.window_id->0, click: v.pending[0] })
                        &&& final(self)@ == (SessionView { pending: v.pending.drop_first(), last_click: Some(now), ..v })
                    } else {
                        step == TickStep::ConfirmTransfer && final(self)@ == (SessionView { last_click: Some(now), ..v })
                    }
                } else {
                    step == TickStep::Idle && final(self)@ == v
                }
            }),
    {
        proof {
            use_type_invariant(&*self);
        }
        let phase = self.machine.status().phase;
        match phase {
            ContainerPhase::Idle | ContainerPhase::Completed | ContainerPhase::Failed | ContainerPhase::Cancelled => {
                return TickStep::Idle;
            },
            _ => {},
        }
        if !connected {
            self.fail_with(ContainerOutcome::Disconnected);
            return TickStep::Stopped;
        }
        if alive == Some(false) {
            self.fail_with(ContainerOutcome::Died);
            return TickStep::Stopped;
        }
        if now > self.deadline {
            self.fail_with(ContainerOutcome::TimedOut);
            return TickStep::Stopped;
        }
        match phase {
            ContainerPhase::Navigating => TickStep::PollNavigation,
            ContainerPhase::Aligning => TickStep::PollLook,
            ContainerPhase::AwaitingMenu => TickStep::PollMenu,
            ContainerPhase::Open => TickStep::CheckMenuOpen,
            ContainerPhase::Transferring => {
                if let Some(last) = self.last_click {
                    if now < last || now - last < CLICK_DELAY {
                        return TickStep::Idle;
                    }
                }
                self.last_click = Some(now);
                if self.next_click < self.clicks.len() {
                    let click = self.clicks[self.next_click];
                    let ghost before = self.clicks@.subrange(self.next_click as int, self.clicks@.len() as int);
                    self.next_click = self.next_click + 1;
                    assert(self.clicks@.subrange(self.next_click as int, self.clicks@.len() as int) =~= before.drop_first());
                    let window = match self.machine.status().window_id {
                        Some(w) => w,
                        None => {
                            assert(false);
                            0
                        },
                    };
                    TickStep::Click { window, click }
                } else {
                    TickStep::ConfirmTransfer
                }
            },
            _ => TickStep::Idle,
        }
    }

    /// Reports block navigation. Arrival moves the task to `Aligning` and
    /// hands back the chest and its block id to face; a failed or
    /// cancelled navigation fails the task with `TargetUnreachable`.
    pub fn on_navigation(&mut self, progress: NavigationProgress) -> (face: Option<(BlockPosition, Option<String>)>)
        ensures
            progress == NavigationProgress::Reached ==> final(self)@ == (SessionView {
                machine: advanced(old(self)@.machine, ContainerPhase::Aligning),
                ..old(self)@
            }) && (face is Some <==> old(self)@.machine.status.target is Some),
            face matches Some((t, id)) ==> Some(t) == old(self)@.machine.status.target && text_view(id) == old(self)@.block_id,
            progress == NavigationProgress::Failed || progress == NavigationProgress::Cancelled
                ==> face is None && final(self)@ == failed_view(old(self)@, ContainerOutcome::TargetUnreachable),
            progress == NavigationProgress::Pending ==> face is None && final(self)@ == old(self)@,
    {
        proof {
            use_type_invariant(&*self);
        }
        match progress {
            NavigationProgress::Reached => {
                self.machine.advance(ContainerPhase::Aligning);
                match self.machine.status().target {
                    Some(target) => Some((target, self.block_id.clone())),
                    None => None,
                }
            },
            NavigationProgress::Failed | NavigationProgress::Cancelled => {
                self.fail_with(ContainerOutcome::TargetUnreachable);
                None
            },
            NavigationProgress::Pending => None,
        }
    }

    /// Reports the look controller. Facing the chest moves the task to
    /// `Interacting` and hands back the chest to interact with; a failed or
    /// cancelled look fails the task with `TargetUnreachable`.
    pub fn on_look(&mut self, progress: LookProgress) -> (interact: Option<BlockPosition>)
        ensures
            progress == LookProgress::Completed ==> interact == old(self)@.machine.status.target && final(self)@ == (SessionView {
                machine: advanced(old(self)@.machine, ContainerPhase::Interacting),
                ..old(self)@
            }),
            progress == LookProgress::Failed || progress == LookProgress::Cancelled
                ==> interact is None && final(self)@ == failed_view(old(self)@, ContainerOutcome::TargetUnreachable),
            progress == LookProgress::Pending ==> interact is None && final(self)@ == old(self)@,
    {
        proof {
            use_type_invariant(&*self);
        }
        match progress {
            LookProgress::Completed => {
                self.machine.advance(ContainerPhase::Interacting);
                self.machine.status().target
            },
            LookProgress::Failed | LookProgress::Cancelled => {
                self.fail_with(ContainerOutcome::TargetUnreachable);
                None
            },
            LookProgress::Pending => None,
        }
    }

    /// Reports the interaction with the chest: on success the task awaits
    /// the menu; otherwise it fails with `BlockedOrRemoved`.
    pub fn on_interact(&mut self, succeeded: bool)
        ensures
            succeeded ==> final(self)@ == (SessionView {
                machine: advanced(old(self)@.machine, ContainerPhase::AwaitingMenu),
                ..old(self)@
            }),
            !succeeded ==> final(self)@ == failed_view(old(self)@, ContainerOutcome::BlockedOrRemoved),
    {
        proof {
            use_type_invariant(&*self);
        }
        if succeeded {
            self.machine.advance(ContainerPhase::AwaitingMenu);
        } else {
            self.fail_with(ContainerOutcome::BlockedOrRemoved);
        }
    }

    /// Reports the chest menu while awaiting it: an open chest menu is
    /// recorded and the task then waits up to [`OPEN_MENU_TIMEOUT`] from
    /// `now`; another open menu fails the task with `WrongMenu`; no menu
    /// yet changes nothing.
    pub fn on_menu(&mut self, menu: Option<&MenuSnapshot>, other_menu_open: bool, now: u64)
        ensures
            menu matches Some(m) ==> final(self)@ == (SessionView {
                machine: ContainerModel {
                    status: ContainerStatus {
                        kind: Some(m.kind),
                        window_id: Some(m.window_id),
                        phase: ContainerPhase::Open,
                        outcome: Some(ContainerOutcome::Opened),
                        ..old(self)@.machine.status
                    },
                    expected_revision: Some(m.revision),
                    ..old(self)@.machine
                },
                deadline: later(now, OPEN_MENU_TIMEOUT),
                ..old(self)@
            }),
            menu is None && other_menu_open ==> final(self)@ == failed_view(old(self)@, ContainerOutcome::WrongMenu),
            menu is None && !other_menu_open ==> final(self)@ == old(self)@,
    {
        proof {
            use_type_invariant(&*self);
        }
        match menu {
            Some(m) => {
                if self.machine.menu_opened(m).is_ok() {
                    self.deadline = now.saturating_add(OPEN_MENU_TIMEOUT);
                }
            },
            None => {
                if other_menu_open {
                    self.fail_with(ContainerOutcome::WrongMenu);
                }
            },
        }
    }

    /// Reports whether the open chest menu is still open; a closed one
    /// fails the task with `ContainerClosedUnexpectedly`.
    pub fn on_menu_check(&mut self, still_open: bool)
        ensures
            still_open ==> final(self)@ == old(self)@,
            !still_open ==> final(self)@ == failed_view(old(self)@, ContainerOutcome::ContainerClosedUnexpectedly),
    {
        proof {
            use_type_invariant(&*self);
        }
        if !still_open {
            self.fail_with(ContainerOutcome::ContainerClosedUnexpectedly);
        }
    }

    /// Reports that a click could not be sent: the task fails with
    /// `InventoryConflict`.
    pub fn on_click_failed(&mut self)
        ensures
            final(self)@ == failed_view(old(self)@, ContainerOutcome::InventoryConflict),
    {
        self.fail_with(ContainerOutcome::InventoryConflict);
    }

    /// Whether [`ContainerSession::on_transfer_menu`] can take `menu`: its
    /// counts fit their integers.
    pub fn confirmation_ok(&self, menu: &MenuSnapshot) -> (r: bool)
        ensures
            r == confirmation_counts_fit(self@, *menu),
    {
        let current = wide_count_matching(menu, self.direction, self.item.as_str());
        if current > 0xFFFF_FFFFu128 {
            return false;
        }
        let current = current as u32;
        let moved = self.baseline.saturating_sub(current);
        let actual = if moved < self.planned { moved } else { self.planned };
        self.machine.status().transferred as u64 + actual as u64 <= 0xFFFF_FFFFu64
    }

    /// Reports the chest menu once every click is sent. When its revision
    /// moved, the transfer is confirmed with the amount the source side
    /// dropped by (at most the planned amount); otherwise nothing changes.
    pub fn on_transfer_menu(&mut self, menu: &MenuSnapshot)
        requires
            confirmation_counts_fit(old(self)@, *menu),
        ensures
            old(self)@.machine.expected_revision == Some(menu.revision) ==> final(self)@ == old(self)@,
            old(self)@.machine.expected_revision != Some(menu.revision) ==> {
                let actual = confirmed_amount(old(self)@, *menu);
                let m = old(self)@.machine;
                &&& m.status.window_id != Some(menu.window_id)
                    ==> final(self)@ == (SessionView { machine: failed(m, ContainerOutcome::ContainerClosedUnexpectedly), ..old(self)@ })
                &&& m.status.window_id == Some(menu.window_id) && actual == 0
                    ==> final(self)@ == (SessionView { machine: failed(m, ContainerOutcome::ServerRejected), ..old(self)@ })
                &&& m.status.window_id == Some(menu.window_id) && actual > 0 ==> final(self)@ == (SessionView {
                    machine: ContainerModel {
                        status: ContainerStatus {
                            transferred: (m.status.transferred + actual) as u32,
                            phase: ContainerPhase::Open,
                            outcome: Some(if m.status.transferred + actual < m.status.requested {
                                ContainerOutcome::TransferPartial
                            } else {
                                ContainerOutcome::TransferCompleted
                            }),
                            ..m.status
                        },
                        expected_revision: Some(menu.revision),
                        ..m
                    },
                    ..old(self)@
                })
            },
    {
        proof {
            use_type_invariant(&*self);
        }
        let current = count_matching(menu, self.direction, self.item.as_str());
        let moved = self.baseline.saturating_sub(current);
        let actual = if moved < self.planned { moved } else { self.planned };
        if self.machine.revision_changed(menu.revision) {
            let _ = self.machine.confirm(menu.window_id, menu.revision, actual);
        }
    }
}

/// A confirmation never credits more than the transfer planned, nor less
/// than nothing.
pub proof fn lemma_confirmation_stays_within_the_plan(v: SessionView, menu: MenuSnapshot)
    ensures
        0 <= confirmed_amount(v, menu) <= v.planned,
{
}

} // verus!
