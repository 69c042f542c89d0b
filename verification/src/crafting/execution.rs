//! Transactional execution of a resolved crafting plan through a menu
//! driver: every grid mutation must be acknowledged by a newer menu
//! revision, the output must arrive in the inventory before an operation
//! counts, and whatever way the run ends, the grid is handed back.
use vstd::prelude::*;
use std::sync::Arc;
use std::sync::atomic::AtomicBool;
use crate::crafting::counts::{ItemCounts, count_of};
use crate::text::str_equal;
use crate::crafting::run::{
    craft_begin, craft_request, craft_step, lemma_step_progress, result_view, run_begins, run_over, run_major, run_minor,
    run_wf, CraftEvent, CraftRequest, RunPhase, RunView,
};

verus! {

/// Which menu a plan is crafted in.
#[derive(Clone, Copy, Debug, PartialEq, Eq, Structural)]
pub enum CraftingMenu {
    /// The player's own 2x2 grid.
    Player,
    /// A crafting table's 3x3 grid.
    Table,
}

/// One item placed in one grid cell per operation.
#[derive(Clone, Debug, PartialEq, Eq)]
pub struct IngredientPlacement {
    pub item: String,
    pub row: u8,
    pub column: u8,
}

/// A recipe resolved to concrete grid placements.
#[derive(Clone, Debug, PartialEq, Eq)]
pub struct ResolvedCraftPlan {
    pub recipe_id: String,
    pub output_item: String,
    pub output_per_craft: u32,
    pub requested_output: u32,
    /// One entry per item consumed by one operation.
    pub placements: Vec<IngredientPlacement>,
    pub shaped: bool,
}

/// Whether every placement's row and column leave room for the extent.
pub open spec fn placements_bounded(ps: Seq<IngredientPlacement>) -> bool {
    forall|i: int| 0 <= i < ps.len() ==> (#[trigger] ps[i]).row < 255 && ps[i].column < 255
}

/// The grid side a placement needs.
pub open spec fn cell_extent(p: IngredientPlacement) -> int {
    if p.row >= p.column {
        p.row + 1
    } else {
        p.column + 1
    }
}

/// The smallest square grid holding every placement (0 for none).
pub open spec fn grid_extent(ps: Seq<IngredientPlacement>) -> int
    decreases ps.len(),
{
    if ps.len() == 0 {
        0
    } else {
        let rest = grid_extent(ps.drop_last());
        let last = cell_extent(ps.last());
        if rest >= last {
            rest
        } else {
            last
        }
    }
}

/// How many operations produce at least `requested` items at `per_craft`
/// per operation (a zero `per_craft` counts as one).
pub open spec fn operations_for(requested: u32, per_craft: u32) -> int {
    let m: int = if per_craft == 0 {
        1
    } else {
        per_craft as int
    };
    (requested + m - 1) / m
}

/// How many placements put `item` in the grid.
pub open spec fn placement_count(ps: Seq<IngredientPlacement>, item: Seq<char>) -> int
    decreases ps.len(),
{
    if ps.len() == 0 {
        0
    } else {
        placement_count(ps.drop_last(), item) + if ps.last().item@ == item {
            1int
        } else {
            0int
        }
    }
}

/// Whether some placement puts `item` in the grid.
pub open spec fn places(ps: Seq<IngredientPlacement>, item: Seq<char>) -> bool {
    exists|i: int| 0 <= i < ps.len() && (#[trigger] ps[i]).item@ == item
}

/// What `operations` operations consume: every placed item, each
/// `operations` times per placement.
pub open spec fn requirement_map(ps: Seq<IngredientPlacement>, operations: int) -> Map<Seq<char>, u32> {
    Map::new(|k: Seq<char>| places(ps, k), |k: Seq<char>| (operations * placement_count(ps, k)) as u32)
}

/// What `done` completed operations consumed (nothing at all before the
/// first).
pub open spec fn consumed_map(ps: Seq<IngredientPlacement>, done: int) -> Map<Seq<char>, u32> {
    if done == 0 {
        Map::empty()
    } else {
        requirement_map(ps, done)
    }
}

proof fn lemma_count_bounds(ps: Seq<IngredientPlacement>, item: Seq<char>)
    ensures
        0 <= placement_count(ps, item) <= ps.len(),
        placement_count(ps, item) > 0 <==> places(ps, item),
    decreases ps.len(),
{
    if ps.len() > 0 {
        let rest = ps.drop_last();
        lemma_count_bounds(rest, item);
        if places(rest, item) {
            let i = choose|i: int| 0 <= i < rest.len() && (#[trigger] rest[i]).item@ == item;
            assert(ps[i].item@ == item);
        }
        if ps.last().item@ == item {
            assert(ps[ps.len() - 1].item@ == item);
        }
        if places(ps, item) {
            let i = choose|i: int| 0 <= i < ps.len() && (#[trigger] ps[i]).item@ == item;
            if i < ps.len() - 1 {
                assert(rest[i].item@ == item);
            }
        }
    }
}

pub(crate) proof fn lemma_extent_bounds(ps: Seq<IngredientPlacement>)
    ensures
        grid_extent(ps) >= 0,
        forall|i: int| 0 <= i < ps.len() ==> cell_extent(#[trigger] ps[i]) <= grid_extent(ps),
        placements_bounded(ps) ==> grid_extent(ps) <= 255,
    decreases ps.len(),
{
    if ps.len() > 0 {
        let rest = ps.drop_last();
        lemma_extent_bounds(rest);
        assert forall|i: int| 0 <= i < ps.len() implies cell_extent(#[trigger] ps[i]) <= grid_extent(ps) by {
            if i < ps.len() - 1 {
                assert(rest[i] == ps[i]);
            }
        }
        if placements_bounded(ps) {
            assert(ps[ps.len() - 1] == ps.last());
            assert forall|i: int| 0 <= i < rest.len() implies (#[trigger] rest[i]).row < 255 && rest[i].column < 255 by {
                assert(rest[i] == ps[i]);
            }
        }
    }
}

impl ResolvedCraftPlan {
    /// The side of the smallest square grid the placements fit in.
    pub fn grid_size(&self) -> (n: u8)
        requires
            placements_bounded(self.placements@),
        ensures
            n == grid_extent(self.placements@),
    {
        let mut n: u8 = 0;
        let mut i: usize = 0;
        while i < self.placements.len()
            invariant
                i <= self.placements@.len(),
                placements_bounded(self.placements@),
                n == grid_extent(self.placements@.take(i as int)),
            decreases self.placements@.len() - i,
        {
            let p = &self.placements[i];
            let extent: u8 = if p.row >= p.column { p.row + 1 } else { p.column + 1 };
            proof {
                assert(self.placements@.take(i + 1).drop_last() =~= self.placements@.take(i as int));
                assert(self.placements@.take(i + 1).last() == self.placements@[i as int]);
            }
            if extent > n {
                n = extent;
            }
            i = i + 1;
        }
        proof {
            assert(self.placements@.take(self.placements@.len() as int) =~= self.placements@);
        }
        n
    }

    /// How many operations the requested output takes.
    pub fn operations(&self) -> (n: u32)
        ensures
            n == operations_for(self.requested_output, self.output_per_craft),
    {
        let m: u64 = if self.output_per_craft == 0 { 1 } else { self.output_per_craft as u64 };
        let total: u64 = self.requested_output as u64 + m - 1;
        let n: u64 = total / m;
        assert(n <= self.requested_output) by (nonlinear_arith)
            requires
                m >= 1,
                total == self.requested_output + m - 1,
                n == total / m,
        ;
        n as u32
    }

    /// Everything `operations` operations consume, by item.
    pub fn requirements(&self, operations: u32) -> (r: ItemCounts)
        requires
            operations * self.placements@.len() <= u32::MAX,
        ensures
            r@ == requirement_map(self.placements@, operations as int),
    {
        let ghost ps = self.placements@;
        let mut result = ItemCounts::new();
        let mut i: usize = 0;
        proof {
            assert(result@ =~= requirement_map(ps.take(0), operations as int));
        }
        while i < self.placements.len()
            invariant
                i <= ps.len(),
                ps == self.placements@,
                operations * ps.len() <= u32::MAX,
                result@ == requirement_map(ps.take(i as int), operations as int),
            decreases ps.len() - i,
        {
            let item = self.placements[i].item.clone();
            let ghost before = ps.take(i as int);
            let ghost after = ps.take(i + 1);
            proof {
                assert(after.drop_last() =~= before);
                assert(after.last() == ps[i as int]);
                lemma_count_bounds(before, item@);
                let c = placement_count(before, item@);
                assert(operations * c + operations <= u32::MAX) by (nonlinear_arith)
                    requires
                        0 <= c <= i,
                        i + 1 <= ps.len(),
                        operations * ps.len() <= u32::MAX,
                ;
                assert(0 <= operations * c) by (nonlinear_arith)
                    requires
                        0 <= c,
                ;
                if !places(before, item@) {
                    assert(c == 0);
                    assert(operations * c == 0);
                }
                assert(count_of(result@, item@) == operations * c);
            }
            result.add(item, operations);
            proof {
                assert forall|k: Seq<char>| places(after, k) == (places(before, k) || k == ps[i as int].item@) by {
                    if places(before, k) {
                        let j = choose|j: int| 0 <= j < before.len() && (#[trigger] before[j]).item@ == k;
                        assert(after[j].item@ == k);
                    }
                    if k == ps[i as int].item@ {
                        assert(after[i as int].item@ == k);
                    }
                    if places(after, k) {
                        let j = choose|j: int| 0 <= j < after.len() && (#[trigger] after[j]).item@ == k;
                        if j < i {
                            assert(before[j].item@ == k);
                        }
                    }
                }
                assert(result@ =~= requirement_map(after, operations as int)) by {
                    assert forall|k: Seq<char>| places(after, k) implies #[trigger] result@[k] == (operations * placement_count(after, k)) as u32 by {
                        if k == ps[i as int].item@ {
                            assert(operations * placement_count(after, k) == operations * placement_count(before, k) + operations) by (nonlinear_arith)
                                requires
                                    placement_count(after, k) == placement_count(before, k) + 1,
                            ;
                        }
                    }
                }
            }
            i = i + 1;
        }
        proof {
            assert(ps.take(ps.len() as int) =~= ps);
        }
        result
    }
}

/// The limits and permissions of one crafting run.
#[derive(Clone, Debug)]
pub struct CraftingOptions {
    pub allow_player_grid: bool,
    pub allow_table: bool,
    pub allow_table_navigation: bool,
    pub table_search_radius: u32,
    pub maximum_operations: u32,
    /// How long the run may take, in milliseconds.
    pub timeout_millis: u64,
    /// Whether to take back what is left in the grid or on the cursor.
    pub restore_grid: bool,
}

impl Default for CraftingOptions {
    fn default() -> (o: Self)
        ensures
            o.allow_player_grid && o.allow_table && o.allow_table_navigation,
            o.table_search_radius == 32,
            o.maximum_operations == 64,
            o.timeout_millis == 30_000,
            o.restore_grid,
    {
        CraftingOptions {
            allow_player_grid: true,
            allow_table: true,
            allow_table_navigation: true,
            table_search_radius: 32,
            maximum_operations: 64,
            timeout_millis: 30_000,
            restore_grid: true,
        }
    }
}

/// What the driver last saw of the crafting menu.
#[derive(Clone, Debug, Default, PartialEq, Eq)]
pub struct MenuSnapshot {
    pub revision: u64,
    pub menu: Option<CraftingMenu>,
    pub inventory: ItemCounts,
    pub grid: Vec<Option<String>>,
    pub cursor: Option<(String, u32)>,
    pub output: Option<(String, u32)>,
    pub free_inventory_slots: u32,
    pub alive: bool,
    pub connected: bool,
}

/// How a crafting run ended.
#[derive(Clone, Copy, Debug, PartialEq, Eq, Structural)]
pub enum CraftStatus {
    Completed,
    Partial,
    MissingMaterials,
    NoSpace,
    WrongMenu,
    Rejected,
    TimedOut,
    Cancelled,
    Died,
    Disconnected,
}

/// The full account of a crafting run.
#[derive(Clone, Debug, PartialEq, Eq)]
pub struct CraftResult {
    pub status: CraftStatus,
    pub recipe_id: String,
    pub requested: u32,
    pub crafted: u32,
    pub completed_operations: u32,
    pub ingredients_consumed: ItemCounts,
    pub missing: ItemCounts,
    pub menu: Option<CraftingMenu>,
    pub initial_revision: u64,
    pub final_revision: u64,
    pub cursor: Option<(String, u32)>,
    pub grid: Vec<Option<String>>,
    pub recovered: bool,
    pub detail: Option<String>,
}

/// Why a driver operation failed.
#[derive(Clone, Copy, Debug, PartialEq, Eq, Structural)]
pub enum DriverError {
    Rejected,
    TimedOut,
    Cancelled,
    Died,
    Disconnected,
    WrongMenu,
    NoSpace,
}

/// The sole owner of inventory operations while [`execute`] runs. Each
/// mutating method returns only once the server has acknowledged a newer
/// menu revision.
pub trait CraftingDriver {
    fn snapshot(&mut self) -> MenuSnapshot;
    fn open_player_menu(&mut self) -> Result<MenuSnapshot, DriverError>;
    fn open_known_table(&mut self, radius: u32, navigate: bool) -> Result<MenuSnapshot, DriverError>;
    fn place_one(&mut self, grid_slot: usize, item: &str, after_revision: u64) -> Result<MenuSnapshot, DriverError>;
    fn take_output(&mut self, item: &str, after_revision: u64) -> Result<MenuSnapshot, DriverError>;
    fn recover(&mut self, after_revision: u64) -> Result<MenuSnapshot, DriverError>;
}

/// A cancellation flag shared between a running craft and whoever may stop
/// it.
#[derive(Clone, Default)]
pub struct CraftCancellation(Arc<AtomicBool>);

impl CraftCancellation {
    /// Asks the running craft to stop.
    pub fn cancel(&self) {
        self.0.store(true, std::sync::atomic::Ordering::Release);
    }

    /// Whether a stop was asked for (another holder of the flag may set it
    /// at any moment, so nothing is known of the answer in advance).
    pub fn is_cancelled(&self) -> bool {
        self.0.load(std::sync::atomic::Ordering::Acquire)
    }

    /// Clears the flag for the next run.
    pub fn reset(&self) {
        self.0.store(false, std::sync::atomic::Ordering::Release);
    }
}

/// The status for a driver error.
pub open spec fn status_for(error: DriverError) -> CraftStatus {
    match error {
        DriverError::Rejected => CraftStatus::Rejected,
        DriverError::TimedOut => CraftStatus::TimedOut,
        DriverError::Cancelled => CraftStatus::Cancelled,
        DriverError::Died => CraftStatus::Died,
        DriverError::Disconnected => CraftStatus::Disconnected,
        DriverError::WrongMenu => CraftStatus::WrongMenu,
        DriverError::NoSpace => CraftStatus::NoSpace,
    }
}

/// The status a driver error ends a run with: `Partial` when asked to
/// report partial progress, otherwise the error's own status.
pub fn map_error(error: DriverError, partial: bool) -> (s: CraftStatus)
    ensures
        s == if partial {
            CraftStatus::Partial
        } else {
            status_for(error)
        },
{
    if partial {
        return CraftStatus::Partial;
    }
    match error {
        DriverError::Rejected => CraftStatus::Rejected,
        DriverError::TimedOut => CraftStatus::TimedOut,
        DriverError::Cancelled => CraftStatus::Cancelled,
        DriverError::Died => CraftStatus::Died,
        DriverError::Disconnected => CraftStatus::Disconnected,
        DriverError::WrongMenu => CraftStatus::WrongMenu,
        DriverError::NoSpace => CraftStatus::NoSpace,
    }
}

/// A run that stops after some operations completed is `Partial`,
/// whatever stopped it.
pub open spec fn finished(status: CraftStatus, done: u32) -> CraftStatus {
    if done > 0 {
        CraftStatus::Partial
    } else {
        status
    }
}

/// Executable form of [`finished`].
pub fn finish_status(status: CraftStatus, done: u32) -> (s: CraftStatus)
    ensures
        s == finished(status, done),
{
    if done > 0 {
        CraftStatus::Partial
    } else {
        status
    }
}

/// A placement count over a prefix never exceeds the count over the whole.
proof fn lemma_count_prefix(ps: Seq<IngredientPlacement>, m: int, item: Seq<char>)
    requires
        0 <= m <= ps.len(),
    ensures
        placement_count(ps.take(m), item) <= placement_count(ps, item),
    decreases ps.len() - m,
{
    if m < ps.len() {
        assert(ps.take(m + 1).drop_last() =~= ps.take(m));
        lemma_count_prefix(ps, m + 1, item);
    } else {
        assert(ps.take(m) =~= ps);
    }
}

/// What the consumption record holds part-way through recording one more
/// operation: `done` whole operations plus the first `m` placements.
pub open spec fn partly_consumed(ps: Seq<IngredientPlacement>, done: int, m: int) -> Map<Seq<char>, u32> {
    Map::new(
        |k: Seq<char>| (done > 0 && places(ps, k)) || places(ps.take(m), k),
        |k: Seq<char>| (done * placement_count(ps, k) + placement_count(ps.take(m), k)) as u32,
    )
}

/// Adds one operation's placements to the consumption record.
pub(crate) fn record_operation(consumed: &mut ItemCounts, plan: &ResolvedCraftPlan, done: u32)
    requires
        old(consumed)@ == consumed_map(plan.placements@, done as int),
        (done + 1) * plan.placements@.len() <= u32::MAX,
    ensures
        final(consumed)@ == consumed_map(plan.placements@, done + 1),
{
    let ghost ps = plan.placements@;
    proof {
        assert(ps.take(0) =~= Seq::<IngredientPlacement>::empty());
        if done == 0 {
            assert(consumed@ =~= partly_consumed(ps, 0, 0));
        } else {
            assert forall|k: Seq<char>| #[trigger] places(ps, k) implies consumed@[k] == (done * placement_count(ps, k) + placement_count(ps.take(0), k)) as u32 by {
            }
            assert(consumed@ =~= partly_consumed(ps, done as int, 0));
        }
    }
    let mut m: usize = 0;
    while m < plan.placements.len()
        invariant
            m <= ps.len(),
            ps == plan.placements@,
            (done + 1) * ps.len() <= u32::MAX,
            consumed@ == partly_consumed(ps, done as int, m as int),
        decreases ps.len() - m,
    {
        let item = plan.placements[m].item.clone();
        let ghost before = ps.take(m as int);
        let ghost after = ps.take(m + 1);
        proof {
            assert(after.drop_last() =~= before);
            assert(after.last() == ps[m as int]);
            lemma_count_prefix(ps, m + 1, item@);
            lemma_count_bounds(ps, item@);
            lemma_count_bounds(before, item@);
            let total = placement_count(ps, item@);
            let part = placement_count(before, item@);
            assert(part + 1 <= total);
            assert(done * total + part + 1 <= (done + 1) * total) by (nonlinear_arith)
                requires
                    part + 1 <= total,
            ;
            assert((done + 1) * total <= (done + 1) * ps.len()) by (nonlinear_arith)
                requires
                    total <= ps.len(),
            ;
            assert(0 <= done * total) by (nonlinear_arith)
                requires
                    0 <= total,
            ;
            if !((done > 0 && places(ps, item@)) || places(before, item@)) {
                assert(part == 0);
                if done > 0 {
                    assert(total == 0);
                }
                assert(done * total == 0) by (nonlinear_arith)
                    requires
                        done == 0 || total == 0,
                ;
            }
            assert(count_of(consumed@, item@) == done * total + part);
        }
        consumed.add(item, 1);
        proof {
            assert forall|k: Seq<char>| places(after, k) == (places(before, k) || k == ps[m as int].item@) by {
                if places(before, k) {
                    let j = choose|j: int| 0 <= j < before.len() && (#[trigger] before[j]).item@ == k;
                    assert(after[j].item@ == k);
                }
                if k == ps[m as int].item@ {
                    assert(after[m as int].item@ == k);
                }
                if places(after, k) {
                    let j = choose|j: int| 0 <= j < after.len() && (#[trigger] after[j]).item@ == k;
                    if j < m {
                        assert(before[j].item@ == k);
                    }
                }
            }
            assert(consumed@ =~= partly_consumed(ps, done as int, m + 1));
        }
        m = m + 1;
    }
    proof {
        assert(ps.take(ps.len() as int) =~= ps);
        assert forall|k: Seq<char>| #[trigger] places(ps, k) implies
            (done * placement_count(ps, k) + placement_count(ps, k)) == (done + 1) * placement_count(ps, k) by {
            assert((done + 1) * placement_count(ps, k) == done * placement_count(ps, k) + placement_count(ps, k)) by (nonlinear_arith);
        }
        assert(consumed@ =~= consumed_map(ps, done + 1));
    }
}

/// Whether a plan cannot be run at all: no output per operation, nothing
/// requested, nothing to place, or a grid larger than 3x3.
pub open spec fn plan_invalid(plan: ResolvedCraftPlan) -> bool {
    plan.output_per_craft == 0 || plan.requested_output == 0 || plan.placements@.len() == 0
        || grid_extent(plan.placements@) > 3
}

/// What the inventory lacks for `operations` operations: for each placed
/// item held fewer times than needed, the difference.
pub open spec fn shortfall(ps: Seq<IngredientPlacement>, operations: int, inventory: Map<Seq<char>, u32>) -> Map<Seq<char>, u32> {
    Map::new(
        |k: Seq<char>| places(ps, k) && count_of(inventory, k) < operations * placement_count(ps, k),
        |k: Seq<char>| (operations * placement_count(ps, k) - count_of(inventory, k)) as u32,
    )
}

/// The menu a plan is crafted in: the player grid when the plan fits 2x2
/// and the player grid is allowed, the table otherwise.
pub open spec fn menu_for(plan: ResolvedCraftPlan, options: CraftingOptions) -> CraftingMenu {
    if grid_extent(plan.placements@) <= 2 && options.allow_player_grid {
        CraftingMenu::Player
    } else {
        CraftingMenu::Table
    }
}

/// Whether `r` records nothing done yet for `plan`, starting at `start`.
pub open spec fn untouched(r: CraftResult, plan: ResolvedCraftPlan, start: MenuSnapshot) -> bool {
    &&& r.recipe_id@ == plan.recipe_id@
    &&& r.requested == plan.requested_output
    &&& r.crafted == 0
    &&& r.completed_operations == 0
    &&& r.ingredients_consumed@ == Map::<Seq<char>, u32>::empty()
    &&& r.menu is None
    &&& r.initial_revision == start.revision
    &&& r.final_revision == start.revision
    &&& r.cursor == start.cursor
    &&& r.grid@ == start.grid@
    &&& !r.recovered
}

/// A copy of what the cursor holds.
pub(crate) fn copy_cursor(cursor: &Option<(String, u32)>) -> (r: Option<(String, u32)>)
    ensures
        r == *cursor,
{
    match cursor {
        Some((item, count)) => Some((item.clone(), *count)),
        None => None,
    }
}

/// A copy of what the grid's cells hold.
pub(crate) fn copy_grid(grid: &Vec<Option<String>>) -> (r: Vec<Option<String>>)
    ensures
        r@ == grid@,
{
    let mut r: Vec<Option<String>> = Vec::new();
    let mut i: usize = 0;
    while i < grid.len()
        invariant
            i <= grid.len(),
            r@ == grid@.take(i as int),
        decreases grid.len() - i,
    {
        let cell = match &grid[i] {
            Some(item) => Some(item.clone()),
            None => None,
        };
        r.push(cell);
        i = i + 1;
        proof {
            assert(grid@.take(i as int) =~= grid@.take(i - 1).push(grid@[i - 1]));
        }
    }
    proof {
        assert(grid@.take(i as int) =~= grid@);
    }
    r
}

/// The record of a run that has done nothing yet.
pub(crate) fn fresh_result(plan: &ResolvedCraftPlan, start: &MenuSnapshot) -> (r: CraftResult)
    ensures
        untouched(r, *plan, *start),
        r.status == CraftStatus::Rejected,
        r.missing@ == Map::<Seq<char>, u32>::empty(),
        r.detail is None,
{
    CraftResult {
        status: CraftStatus::Rejected,
        recipe_id: plan.recipe_id.clone(),
        requested: plan.requested_output,
        crafted: 0,
        completed_operations: 0,
        ingredients_consumed: ItemCounts::new(),
        missing: ItemCounts::new(),
        menu: None,
        initial_revision: start.revision,
        final_revision: start.revision,
        cursor: copy_cursor(&start.cursor),
        grid: copy_grid(&start.grid),
        recovered: false,
        detail: None,
    }
}

/// `Some` of a copy of `text`.
pub(crate) fn detail(text: &str) -> (d: Option<String>)
    ensures
        d matches Some(s) && s@ == text@,
{
    Some(text.to_owned())
}

/// Whether a plan passes the checks made on the start snapshot: it can
/// run, within the operation bound, with every ingredient held for all its
/// operations and somewhere for the output to go.
pub open spec fn preflight_passes(plan: ResolvedCraftPlan, options: CraftingOptions, start: MenuSnapshot) -> bool {
    let n = operations_for(plan.requested_output, plan.output_per_craft);
    &&& !plan_invalid(plan)
    &&& n <= options.maximum_operations
    &&& shortfall(plan.placements@, n, start.inventory@).dom() =~= Set::<Seq<char>>::empty()
    &&& (start.free_inventory_slots > 0 || start.inventory@.dom().contains(plan.output_item@))
}

/// The checks made on the menu snapshot before anything is touched. A plan
/// that cannot run, or needs more operations than allowed, is `Rejected`;
/// one the inventory cannot supply is `MissingMaterials` with the
/// [`shortfall`]; one whose output has nowhere to go is `NoSpace`.
/// Otherwise the operation count and the menu to use.
pub fn preflight(plan: &ResolvedCraftPlan, options: &CraftingOptions, start: &MenuSnapshot) -> (r: Result<(u32, CraftingMenu), CraftResult>)
    requires
        placements_bounded(plan.placements@),
        !plan_invalid(*plan) && operations_for(plan.requested_output, plan.output_per_craft) <= options.maximum_operations
            ==> operations_for(plan.requested_output, plan.output_per_craft) * plan.placements@.len() <= u32::MAX,
    ensures
        match r {
            Ok((n, menu)) => {
                &&& !plan_invalid(*plan)
                &&& n == operations_for(plan.requested_output, plan.output_per_craft)
                &&& n <= options.maximum_operations
                &&& shortfall(plan.placements@, n as int, start.inventory@).dom() =~= Set::<Seq<char>>::empty()
                &&& (start.free_inventory_slots > 0 || start.inventory@.dom().contains(plan.output_item@))
                &&& menu == menu_for(*plan, *options)
            },
            Err(res) => untouched(res, *plan, *start),
        },
        plan_invalid(*plan) ==> (r matches Err(res) && res.status == CraftStatus::Rejected
            && (res.detail matches Some(d) && d@ == "invalid resolved plan"@)),
        !plan_invalid(*plan) && operations_for(plan.requested_output, plan.output_per_craft) > options.maximum_operations
            ==> (r matches Err(res) && res.status == CraftStatus::Rejected
                && (res.detail matches Some(d) && d@ == "operation bound exceeded"@)),
        !plan_invalid(*plan) && operations_for(plan.requested_output, plan.output_per_craft) <= options.maximum_operations
            && !(shortfall(plan.placements@, operations_for(plan.requested_output, plan.output_per_craft), start.inventory@).dom()
                =~= Set::<Seq<char>>::empty())
            ==> (r matches Err(res) && res.status == CraftStatus::MissingMaterials
                && res.missing@ == shortfall(plan.placements@, operations_for(plan.requested_output, plan.output_per_craft), start.inventory@)),
        r matches Err(res) && res.status == CraftStatus::NoSpace ==> start.free_inventory_slots == 0
            && !start.inventory@.dom().contains(plan.output_item@),
        !plan_invalid(*plan) && operations_for(plan.requested_output, plan.output_per_craft) <= options.maximum_operations
            && shortfall(plan.placements@, operations_for(plan.requested_output, plan.output_per_craft), start.inventory@).dom()
                =~= Set::<Seq<char>>::empty()
            && start.free_inventory_slots == 0 && !start.inventory@.dom().contains(plan.output_item@)
            ==> (r matches Err(res) && res.status == CraftStatus::NoSpace),
        r matches Err(res) ==> res.status == CraftStatus::Rejected || res.status == CraftStatus::MissingMaterials
            || res.status == CraftStatus::NoSpace,
        (r is Ok) == preflight_passes(*plan, *options, *start),
        r matches Err(res) ==> res.missing@ == (if res.status == CraftStatus::MissingMaterials {
            shortfall(plan.placements@, operations_for(plan.requested_output, plan.output_per_craft), start.inventory@)
        } else {
            Map::<Seq<char>, u32>::empty()
        }),
{
    let mut result = fresh_result(plan, start);
    let invalid = plan.output_per_craft == 0 || plan.requested_output == 0 || plan.placements.len() == 0
        || plan.grid_size() > 3;
    if invalid {
        result.detail = detail("invalid resolved plan");
        return Err(result);
    }
    let operations = plan.operations();
    if operations > options.maximum_operations {
        result.detail = detail("operation bound exceeded");
        return Err(result);
    }
    let required = plan.requirements(operations);
    let ghost ps = plan.placements@;
    let mut missing = ItemCounts::new();
    let mut i: usize = 0;
    proof {
        assert(missing@ =~= shortfall(ps.take(0), operations as int, start.inventory@));
    }
    while i < plan.placements.len()
        invariant
            i <= ps.len(),
            ps == plan.placements@,
            required@ == requirement_map(ps, operations as int),
            operations * ps.len() <= u32::MAX,
            forall|k: Seq<char>| #[trigger] missing@.dom().contains(k) ==> places(ps.take(i as int), k)
                && count_of(start.inventory@, k) < operations * placement_count(ps, k)
                && missing@[k] == (operations * placement_count(ps, k) - count_of(start.inventory@, k)) as u32,
            forall|k: Seq<char>| places(ps.take(i as int), k) && count_of(start.inventory@, k) < operations * placement_count(ps, k)
                ==> #[trigger] missing@.dom().contains(k),
        decreases ps.len() - i,
    {
        let item = &plan.placements[i].item;
        let ghost before = ps.take(i as int);
        let ghost after = ps.take(i + 1);
        proof {
            assert(after.drop_last() =~= before);
            assert(after[i as int] == ps[i as int]);
            assert(places(ps, item@)) by {
                assert(ps[i as int].item@ == item@);
            }
            lemma_count_bounds(ps, item@);
            assert(operations * placement_count(ps, item@) <= operations * ps.len()) by (nonlinear_arith)
                requires
                    placement_count(ps, item@) <= ps.len(),
            ;
            assert(0 <= operations * placement_count(ps, item@)) by (nonlinear_arith)
                requires
                    0 <= placement_count(ps, item@),
            ;
        }
        let need = required.get(item.as_str());
        let have = start.inventory.get(item.as_str());
        if have < need {
            missing.insert(item.clone(), need - have);
        }
        proof {
            assert forall|k: Seq<char>| places(after, k) == (places(before, k) || k == item@) by {
                if places(before, k) {
                    let j = choose|j: int| 0 <= j < before.len() && (#[trigger] before[j]).item@ == k;
                    assert(after[j].item@ == k);
                }
                if k == item@ {
                    assert(after[i as int].item@ == k);
                }
                if places(after, k) {
                    let j = choose|j: int| 0 <= j < after.len() && (#[trigger] after[j]).item@ == k;
                    if j < i {
                        assert(before[j].item@ == k);
                    }
                }
            }
        }
        i = i + 1;
    }
    proof {
        assert(ps.take(ps.len() as int) =~= ps);
        assert(missing@ =~= shortfall(ps, operations as int, start.inventory@));
    }
    if !missing.is_empty() {
        result.status = CraftStatus::MissingMaterials;
        result.missing = missing;
        return Err(result);
    }
    if start.free_inventory_slots == 0 && !start.inventory.contains_key(plan.output_item.as_str()) {
        result.status = CraftStatus::NoSpace;
        return Err(result);
    }
    let menu = if plan.grid_size() <= 2 && options.allow_player_grid {
        CraftingMenu::Player
    } else {
        CraftingMenu::Table
    };
    Ok((operations, menu))
}

/// `std::time::Instant`, carried through opaquely.
#[verifier::external_type_specification]
#[verifier::external_body]
pub struct ExInstant(std::time::Instant);

/// The current instant (`Instant::now`). Nothing is stated of it: it is
/// the machine's clock.
#[verifier::external_body]
fn clock_now() -> std::time::Instant {
    std::time::Instant::now()
}

/// The time elapsed since `start` (`Instant::elapsed`). Nothing is stated
/// of it: it is the machine's clock.
#[verifier::external_body]
fn elapsed_since(start: &std::time::Instant) -> std::time::Duration {
    start.elapsed()
}

/// The whole milliseconds of a duration (`Duration::as_millis`). Nothing
/// is stated of it.
#[verifier::external_body]
fn whole_millis(duration: &std::time::Duration) -> u128 {
    duration.as_millis()
}

/// The answer to a [`CraftRequest::CheckLimits`], from the whole
/// milliseconds `elapsed` since the run started, the run's time limit and
/// whether a stop was asked for: the time is up once `elapsed` reaches the
/// limit, and a stop request counts only while it is not.
pub fn limits_event(elapsed: u128, timeout_millis: u64, stop_asked: bool) -> (e: CraftEvent)
    ensures
        e == (CraftEvent::Limits {
            timed_out: elapsed >= timeout_millis,
            cancelled: elapsed < timeout_millis && stop_asked,
        }),
{
    let timed_out = elapsed >= timeout_millis as u128;
    CraftEvent::Limits { timed_out, cancelled: !timed_out && stop_asked }
}

/// Whole milliseconds elapsed since `start`.
pub(crate) fn elapsed_millis(start: &std::time::Instant) -> u128 {
    let elapsed = elapsed_since(start);
    whole_millis(&elapsed)
}

/// Whether the snapshot shows `menu` open.
fn shows_menu(snapshot: &MenuSnapshot, menu: CraftingMenu) -> (r: bool)
    ensures
        r == (snapshot.menu == Some(menu)),
{
    match snapshot.menu {
        Some(m) => m == menu,
        None => false,
    }
}

/// Whether the snapshot shows something on the cursor or in a grid cell.
pub open spec fn leftovers_in(snapshot: MenuSnapshot) -> bool {
    snapshot.cursor is Some || exists|i: int| 0 <= i < snapshot.grid@.len() && (#[trigger] snapshot.grid@[i]) is Some
}

/// Whether anything is left on the cursor or in the grid.
pub(crate) fn holds_leftovers(snapshot: &MenuSnapshot) -> (r: bool)
    ensures
        r == leftovers_in(*snapshot),
{
    if snapshot.cursor.is_some() {
        return true;
    }
    let mut i: usize = 0;
    while i < snapshot.grid.len()
        invariant
            i <= snapshot.grid@.len(),
            snapshot.cursor is None,
            forall|j: int| 0 <= j < i ==> (#[trigger] snapshot.grid@[j]) is None,
        decreases snapshot.grid@.len() - i,
    {
        if snapshot.grid[i].is_some() {
            return true;
        }
        i = i + 1;
    }
    false
}

/// How one driver step went: accepted, or the run stops with a status.
#[derive(Clone, Copy, Debug, PartialEq, Eq, Structural)]
pub enum StepOutcome {
    Accepted,
    Stopped(CraftStatus),
}

/// The menu a run asks the driver to open.
#[derive(Clone, Copy, Debug, PartialEq, Eq, Structural)]
pub enum MenuRequest {
    /// The player's own 2x2 grid.
    Player,
    /// A known crafting table within `radius`, walking to it when
    /// `navigate`.
    Table { radius: u32, navigate: bool },
    /// The plan needs a table and tables are not allowed: nothing is asked.
    Refused,
}

/// The request for the plan's menu ([`menu_for`]).
pub open spec fn menu_request_for(plan: ResolvedCraftPlan, options: CraftingOptions) -> MenuRequest {
    match menu_for(plan, options) {
        CraftingMenu::Player => MenuRequest::Player,
        CraftingMenu::Table => if options.allow_table {
            MenuRequest::Table { radius: options.table_search_radius, navigate: options.allow_table_navigation }
        } else {
            MenuRequest::Refused
        },
    }
}

/// The driver call that opens the plan's menu, as [`menu_request_for`]
/// says.
pub fn menu_request(plan: &ResolvedCraftPlan, options: &CraftingOptions) -> (m: MenuRequest)
    requires
        placements_bounded(plan.placements@),
    ensures
        m == menu_request_for(*plan, *options),
{
    if plan.grid_size() <= 2 && options.allow_player_grid {
        MenuRequest::Player
    } else if options.allow_table {
        MenuRequest::Table { radius: options.table_search_radius, navigate: options.allow_table_navigation }
    } else {
        MenuRequest::Refused
    }
}

/// The side of the crafting grid of `menu`.
pub open spec fn grid_width(menu: CraftingMenu) -> int {
    match menu {
        CraftingMenu::Player => 2,
        CraftingMenu::Table => 3,
    }
}

/// The grid cell a placement goes to in `menu`: `row * width + column`.
pub fn grid_cell(placement: &IngredientPlacement, menu: CraftingMenu) -> (cell: usize)
    requires
        placement.row * grid_width(menu) + placement.column <= u8::MAX,
    ensures
        cell == placement.row * grid_width(menu) + placement.column,
{
    let width: u8 = match menu {
        CraftingMenu::Player => 2,
        CraftingMenu::Table => 3,
    };
    (placement.row * width + placement.column) as usize
}

/// How the reply to opening `wanted` goes: accepted when it shows that
/// menu open at a revision newer than `start_revision`; `WrongMenu` when it
/// shows anything else; a driver error's own status.
pub open spec fn open_outcome(start_revision: u64, wanted: CraftingMenu, reply: Result<MenuSnapshot, DriverError>) -> StepOutcome {
    match reply {
        Ok(s) => if s.menu == Some(wanted) && s.revision > start_revision {
            StepOutcome::Accepted
        } else {
            StepOutcome::Stopped(CraftStatus::WrongMenu)
        },
        Err(e) => StepOutcome::Stopped(status_for(e)),
    }
}

/// Judges the reply to opening the menu ([`open_outcome`]).
pub fn open_reply(start_revision: u64, wanted: CraftingMenu, reply: &Result<MenuSnapshot, DriverError>) -> (o: StepOutcome)
    ensures
        o == open_outcome(start_revision, wanted, *reply),
{
    match reply {
        Ok(s) => if shows_menu(s, wanted) && s.revision > start_revision {
            StepOutcome::Accepted
        } else {
            StepOutcome::Stopped(CraftStatus::WrongMenu)
        },
        Err(e) => StepOutcome::Stopped(map_error(*e, false)),
    }
}

/// How the reply to placing one ingredient goes: accepted when it carries
/// a revision newer than `revision`, `Rejected` otherwise, a driver error's
/// own status.
pub open spec fn placement_outcome(revision: u64, reply: Result<MenuSnapshot, DriverError>) -> StepOutcome {
    match reply {
        Ok(next) => if next.revision > revision {
            StepOutcome::Accepted
        } else {
            StepOutcome::Stopped(CraftStatus::Rejected)
        },
        Err(e) => StepOutcome::Stopped(status_for(e)),
    }
}

/// Judges the reply to placing one ingredient ([`placement_outcome`]).
pub fn placement_reply(revision: u64, reply: &Result<MenuSnapshot, DriverError>) -> (o: StepOutcome)
    ensures
        o == placement_outcome(revision, *reply),
{
    match reply {
        Ok(next) => if next.revision > revision {
            StepOutcome::Accepted
        } else {
            StepOutcome::Stopped(CraftStatus::Rejected)
        },
        Err(e) => StepOutcome::Stopped(map_error(*e, false)),
    }
}

/// How the reply to taking the output goes: accepted when it carries a
/// newer revision and the inventory holds at least one operation's output
/// more than `state` did; otherwise `NoSpace` when the inventory has no
/// free slot, else `Rejected`; a driver error's own status.
pub open spec fn operation_outcome(plan: ResolvedCraftPlan, state: MenuSnapshot, reply: Result<MenuSnapshot, DriverError>) -> StepOutcome {
    match reply {
        Ok(next) => if next.revision > state.revision
            && count_of(next.inventory@, plan.output_item@) >= count_of(state.inventory@, plan.output_item@) + plan.output_per_craft {
            StepOutcome::Accepted
        } else if next.free_inventory_slots == 0 {
            StepOutcome::Stopped(CraftStatus::NoSpace)
        } else {
            StepOutcome::Stopped(CraftStatus::Rejected)
        },
        Err(e) => StepOutcome::Stopped(status_for(e)),
    }
}

/// Judges the reply to taking one operation's output
/// ([`operation_outcome`]).
pub fn operation_reply(plan: &ResolvedCraftPlan, state: &MenuSnapshot, reply: &Result<MenuSnapshot, DriverError>) -> (o: StepOutcome)
    ensures
        o == operation_outcome(*plan, *state, *reply),
{
    match reply {
        Ok(next) => {
            let before_count = state.inventory.get(plan.output_item.as_str());
            let after_count = next.inventory.get(plan.output_item.as_str());
            if next.revision > state.revision && after_count as u64 >= before_count as u64 + plan.output_per_craft as u64 {
                StepOutcome::Accepted
            } else if next.free_inventory_slots == 0 {
                StepOutcome::Stopped(CraftStatus::NoSpace)
            } else {
                StepOutcome::Stopped(CraftStatus::Rejected)
            }
        },
        Err(e) => StepOutcome::Stopped(map_error(*e, false)),
    }
}

/// What every run reports, however it ends: the operations it completed
/// and only those are counted, each crediting the recipe's output and
/// consuming one operation's placements; `Completed` exactly when every
/// operation completed; `Partial` exactly when some but not all did.
pub open spec fn run_accounted(r: CraftResult, plan: ResolvedCraftPlan) -> bool {
    let total = operations_for(plan.requested_output, plan.output_per_craft);
    &&& r.recipe_id@ == plan.recipe_id@
    &&& r.requested == plan.requested_output
    &&& r.completed_operations <= total
    &&& r.crafted == r.completed_operations * plan.output_per_craft
    &&& r.ingredients_consumed@ == consumed_map(plan.placements@, r.completed_operations as int)
    &&& (r.status == CraftStatus::Completed) == (r.completed_operations > 0 && r.completed_operations == total)
    &&& (r.status == CraftStatus::Partial) == (0 < r.completed_operations < total)
}

/// Runs a resolved plan through `driver`: the clock starts, the driver's
/// snapshot is taken, and the run goes on as [`execute_from_snapshot`]
/// describes.
pub fn execute<D: CraftingDriver>(driver: &mut D, plan: &ResolvedCraftPlan, options: &CraftingOptions, cancellation: &CraftCancellation) -> (r: CraftResult)
    requires
        placements_bounded(plan.placements@),
        !plan_invalid(*plan) && operations_for(plan.requested_output, plan.output_per_craft) <= options.maximum_operations
            ==> operations_for(plan.requested_output, plan.output_per_craft) * plan.placements@.len() <= u32::MAX
                && operations_for(plan.requested_output, plan.output_per_craft) * plan.output_per_craft <= u32::MAX,
    ensures
        run_accounted(r, *plan),
        plan_invalid(*plan) ==> r.status == CraftStatus::Rejected && r.menu is None
            && (r.detail matches Some(d) && d@ == "invalid resolved plan"@),
        !plan_invalid(*plan) && operations_for(plan.requested_output, plan.output_per_craft) > options.maximum_operations
            ==> r.status == CraftStatus::Rejected && r.menu is None
                && (r.detail matches Some(d) && d@ == "operation bound exceeded"@),
        r.status == CraftStatus::MissingMaterials ==> r.menu is None && r.completed_operations == 0,
        r.menu is Some ==> r.menu == Some(menu_for(*plan, *options)),
        r.menu == Some(CraftingMenu::Table) ==> options.allow_table,
        r.completed_operations > 0 ==> r.menu is Some,
        r.recovered ==> options.restore_grid,
        exists|start: MenuSnapshot, v: RunView, events: Seq<CraftEvent>| {
            &&& r.initial_revision == start.revision
            &&& run_begins(*plan, *options, start, v)
            &&& run_over(*plan, *options, v, events).phase == RunPhase::Done
            &&& result_view(r) == run_over(*plan, *options, v, events).result
        },
{
    let clock = clock_now();
    let start = driver.snapshot();
    let r = execute_from_snapshot(driver, plan, options, cancellation, &clock, &start);
    proof {
        let (v, events) = choose|v: RunView, events: Seq<CraftEvent>| {
            &&& run_begins(*plan, *options, start, v)
            &&& run_over(*plan, *options, v, events).phase == RunPhase::Done
            &&& result_view(r) == run_over(*plan, *options, v, events).result
        };
        assert(r.initial_revision == start.revision && run_begins(*plan, *options, start, v)
            && run_over(*plan, *options, v, events).phase == RunPhase::Done
            && result_view(r) == run_over(*plan, *options, v, events).result);
    }
    r
}

/// Runs a resolved plan through `driver`, with the clock started at
/// `started` and `start` the driver's snapshot: the run is the state
/// machine of [`crate::crafting::run`], from [`run_begins`] on, and this
/// loop only puts each request it makes ([`run_request`]) to the driver,
/// the clock or the stop switch and hands back the answer ([`run_step`]).
/// The result is the run's once it is over. When the checks on `start`
/// fail the run is over at once and the driver is not called
/// ([`crate::crafting::run::lemma_failed_checks_ask_nothing`]); when every
/// answer is accepted, the run ends `Completed`
/// ([`crate::crafting::run::lemma_accepted_run_completes`]).
pub fn execute_from_snapshot<D: CraftingDriver>(
    driver: &mut D,
    plan: &ResolvedCraftPlan,
    options: &CraftingOptions,
    cancellation: &CraftCancellation,
    started: &std::time::Instant,
    start: &MenuSnapshot,
) -> (r: CraftResult)
    requires
        placements_bounded(plan.placements@),
        !plan_invalid(*plan) && operations_for(plan.requested_output, plan.output_per_craft) <= options.maximum_operations
            ==> operations_for(plan.requested_output, plan.output_per_craft) * plan.placements@.len() <= u32::MAX
                && operations_for(plan.requested_output, plan.output_per_craft) * plan.output_per_craft <= u32::MAX,
    ensures
        run_accounted(r, *plan),
        r.initial_revision == start.revision,
        !preflight_passes(*plan, *options, *start) ==> untouched(r, *plan, *start)
            && r.missing@ == (if r.status == CraftStatus::MissingMaterials {
                shortfall(plan.placements@, operations_for(plan.requested_output, plan.output_per_craft), start.inventory@)
            } else {
                Map::<Seq<char>, u32>::empty()
            }),
        plan_invalid(*plan) ==> r.status == CraftStatus::Rejected
            && (r.detail matches Some(d) && d@ == "invalid resolved plan"@),
        !plan_invalid(*plan) && operations_for(plan.requested_output, plan.output_per_craft) > options.maximum_operations
            ==> r.status == CraftStatus::Rejected
                && (r.detail matches Some(d) && d@ == "operation bound exceeded"@),
        !plan_invalid(*plan) && operations_for(plan.requested_output, plan.output_per_craft) <= options.maximum_operations
            && !(shortfall(plan.placements@, operations_for(plan.requested_output, plan.output_per_craft), start.inventory@).dom()
                =~= Set::<Seq<char>>::empty())
            ==> r.status == CraftStatus::MissingMaterials,
        !plan_invalid(*plan) && operations_for(plan.requested_output, plan.output_per_craft) <= options.maximum_operations
            && shortfall(plan.placements@, operations_for(plan.requested_output, plan.output_per_craft), start.inventory@).dom()
                =~= Set::<Seq<char>>::empty()
            && start.free_inventory_slots == 0 && !start.inventory@.dom().contains(plan.output_item@)
            ==> r.status == CraftStatus::NoSpace,
        preflight_passes(*plan, *options, *start) && menu_request_for(*plan, *options) == MenuRequest::Refused
            ==> r.status == CraftStatus::WrongMenu && r.menu is None && r.completed_operations == 0,
        preflight_passes(*plan, *options, *start) ==> r.status != CraftStatus::MissingMaterials,
        r.status == CraftStatus::MissingMaterials ==> r.menu is None && r.completed_operations == 0,
        r.menu is Some ==> preflight_passes(*plan, *options, *start) && r.menu == Some(menu_for(*plan, *options)),
        r.menu == Some(CraftingMenu::Table) ==> options.allow_table,
        r.completed_operations > 0 ==> r.menu is Some,
        r.recovered ==> options.restore_grid,
        !preflight_passes(*plan, *options, *start) ==> *final(driver) == *old(driver),
        exists|v: RunView, events: Seq<CraftEvent>| {
            &&& run_begins(*plan, *options, *start, v)
            &&& run_over(*plan, *options, v, events).phase == RunPhase::Done
            &&& result_view(r) == run_over(*plan, *options, v, events).result
        },
{
    let mut run = craft_begin(plan, options, start);
    let ghost first = run@;
    let ghost untouched_driver = *driver;
    let ghost mut events: Seq<CraftEvent> = Seq::empty();
    loop
        invariant
            run_begins(*plan, *options, *start, first),
            run_wf(*plan, *options, run@),
            run@ == run_over(*plan, *options, first, events),
            first.phase == RunPhase::Done ==> run@ == first && *driver == untouched_driver,
            run@.start_revision == start.revision,
            preflight_passes(*plan, *options, *start) ==> run@.result.status != CraftStatus::MissingMaterials,
            placements_bounded(plan.placements@),
        ensures
            run_wf(*plan, *options, run@),
            run@ == run_over(*plan, *options, first, events),
            run@.phase == RunPhase::Done,
            first.phase == RunPhase::Done ==> run@ == first && *driver == untouched_driver,
            run@.start_revision == start.revision,
            preflight_passes(*plan, *options, *start) ==> run@.result.status != CraftStatus::MissingMaterials,
        decreases run_major(run@), run_minor(*plan, run@),
    {
        let request = craft_request(plan, options, &run);
        let event = match request {
            CraftRequest::Finished => {
                break;
            },
            CraftRequest::OpenPlayer => CraftEvent::Reply(driver.open_player_menu()),
            CraftRequest::OpenTable { radius, navigate } => CraftEvent::Reply(driver.open_known_table(radius, navigate)),
            CraftRequest::CheckLimits => {
                let elapsed = elapsed_millis(started);
                let asked = cancellation.is_cancelled();
                limits_event(elapsed, options.timeout_millis, asked)
            },
            CraftRequest::PlaceOne { cell, item, after } => CraftEvent::Reply(driver.place_one(cell, item.as_str(), after)),
            CraftRequest::CheckCancel => CraftEvent::Cancelled(cancellation.is_cancelled()),
            CraftRequest::TakeOutput { item, after } => CraftEvent::Reply(driver.take_output(item.as_str(), after)),
            CraftRequest::Recover { after } => CraftEvent::Reply(driver.recover(after)),
        };
        let ghost before = run@;
        let ghost answered = event;
        proof {
            lemma_step_progress(*plan, *options, before, answered);
        }
        craft_step(plan, options, &mut run, event);
        proof {
            let old_events = events;
            events = events.push(answered);
            assert(events.drop_last() =~= old_events);
        }
    }
    run.result
}

} // verus!
