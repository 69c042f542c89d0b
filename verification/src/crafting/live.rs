//! The checks a craft in the player's own 2x2 grid passes before the first
//! click: a positive count, a resolvable recipe with ingredients, a recipe
//! that fits the player grid, and every ingredient held for the number of
//! operations (at most [`LIVE_CRAFT_MAX_OPERATIONS`]) -- plus where each
//! placement and the crafted output go in the player's menu.
use vstd::prelude::*;
use crate::crafting::counts::{count_of, ItemCounts};
use crate::crafting::execution::{operations_for, IngredientPlacement, ResolvedCraftPlan};
use crate::crafting::recipes::{normalized, recipes_making, Failure, Recipe, RecipeBook};
use crate::crafting::planner::{preferred_recipe, FailureView};
use crate::crafting::grid::{recipe_placements, PlacementView};
use crate::text::{seq_lt, str_equal, str_lt, lemma_seq_lt_asymmetric, lemma_seq_lt_total};

verus! {

/// The most operations one live craft performs.
pub const LIVE_CRAFT_MAX_OPERATIONS: u32 = 64;

/// Why a live craft does not start.
#[derive(Clone, Debug)]
pub enum LiveCraftRefusal {
    /// The requested count is zero.
    ZeroCount,
    /// No recipe could be resolved into placements.
    Unresolved(Failure),
    /// The resolved recipe has no ingredients.
    NoIngredients,
    /// The recipe needs a crafting table's 3x3 grid.
    NeedsTable,
    /// Not enough of `item` is held: `missing` more are needed, `have` are
    /// held.
    Missing { item: String, missing: u128, have: u32 },
}

/// How many placements put `item`.
pub open spec fn occurrences(ps: Seq<IngredientPlacement>, item: Seq<char>) -> int
    decreases ps.len(),
{
    if ps.len() == 0 {
        0
    } else {
        (if ps[0].item@ == item { 1int } else { 0int }) + occurrences(ps.drop_first(), item)
    }
}

/// Whether some placement puts `item`.
pub open spec fn placed(ps: Seq<IngredientPlacement>, item: Seq<char>) -> bool {
    exists|i: int| 0 <= i < ps.len() && ps[i].item@ == item
}

/// Whether `stock` holds too few of `item` for `operations` operations.
pub open spec fn short_of(ps: Seq<IngredientPlacement>, stock: Map<Seq<char>, u32>, operations: int, item: Seq<char>) -> bool {
    (count_of(stock, item) as int) < operations * occurrences(ps, item)
}

/// Whether some placement sits outside the player's 2x2 grid.
pub open spec fn needs_table(ps: Seq<IngredientPlacement>) -> bool {
    exists|i: int| 0 <= i < ps.len() && (ps[i].row >= 2 || ps[i].column >= 2)
}

/// The operations a live craft of `plan` performs.
pub open spec fn live_operations(plan: ResolvedCraftPlan) -> int {
    let n = operations_for(plan.requested_output, plan.output_per_craft);
    if n < LIVE_CRAFT_MAX_OPERATIONS { n } else { LIVE_CRAFT_MAX_OPERATIONS as int }
}

/// The check of a resolved plan against the held stock: no ingredients,
/// a table-sized grid, or the first short ingredient (by id order) refuse
/// it; otherwise it runs [`live_operations`] operations.
pub open spec fn plan_refusal_of(plan: ResolvedCraftPlan, stock: Map<Seq<char>, u32>, r: Result<u32, LiveCraftRefusal>) -> bool {
    let ps = plan.placements@;
    let n = live_operations(plan);
    if ps.len() == 0 {
        r matches Err(LiveCraftRefusal::NoIngredients)
    } else if needs_table(ps) {
        r matches Err(LiveCraftRefusal::NeedsTable)
    } else {
        match r {
            Ok(ops) => ops == n && forall|item: Seq<char>| placed(ps, item) ==> !short_of(ps, stock, n, item),
            Err(LiveCraftRefusal::Missing { item, missing, have }) => {
                &&& placed(ps, item@)
                &&& short_of(ps, stock, n, item@)
                &&& forall|other: Seq<char>| placed(ps, other) && short_of(ps, stock, n, other) && other != item@
                    ==> seq_lt(item@, other)
                &&& have == count_of(stock, item@)
                &&& missing == n * occurrences(ps, item@) - have
            },
            _ => false,
        }
    }
}

proof fn lemma_occurrences_bounded(ps: Seq<IngredientPlacement>, item: Seq<char>)
    ensures
        0 <= occurrences(ps, item) <= ps.len(),
    decreases ps.len(),
{
    if ps.len() > 0 {
        lemma_occurrences_bounded(ps.drop_first(), item);
    }
}

fn count_occurrences(ps: &Vec<IngredientPlacement>, item: &str) -> (n: u64)
    ensures
        n == occurrences(ps@, item@),
{
    let mut n: u64 = 0;
    let mut j: usize = ps.len();
    assert(ps@.subrange(j as int, j as int) =~= Seq::<IngredientPlacement>::empty());
    while j > 0
        invariant
            j <= ps@.len(),
            n == occurrences(ps@.subrange(j as int, ps@.len() as int), item@),
            n <= ps@.len() - j,
            ps@.len() <= usize::MAX,
        decreases j,
    {
        let ghost tail = ps@.subrange(j as int, ps@.len() as int);
        j = j - 1;
        assert(ps@.subrange(j as int, ps@.len() as int).drop_first() =~= tail);
        if str_equal(ps[j].item.as_str(), item) {
            n = n + 1;
        }
    }
    assert(ps@.subrange(0, ps@.len() as int) =~= ps@);
    n
}

/// Checks a resolved plan against the held `stock`, as
/// [`plan_refusal_of`] describes, returning the operations to run.
pub fn check_live_plan(plan: &ResolvedCraftPlan, stock: &ItemCounts) -> (r: Result<u32, LiveCraftRefusal>)
    ensures
        plan_refusal_of(*plan, stock@, r),
{
    let ghost ps = plan.placements@;
    if plan.placements.len() == 0 {
        return Err(LiveCraftRefusal::NoIngredients);
    }
    let mut k: usize = 0;
    while k < plan.placements.len()
        invariant
            k <= ps.len(),
            ps == plan.placements@,
            forall|i: int| 0 <= i < k ==> !(ps[i].row >= 2 || ps[i].column >= 2),
        decreases ps.len() - k,
    {
        if plan.placements[k].row >= 2 || plan.placements[k].column >= 2 {
            return Err(LiveCraftRefusal::NeedsTable);
        }
        k = k + 1;
    }
    let all = plan.operations();
    let operations: u32 = if all < LIVE_CRAFT_MAX_OPERATIONS { all } else { LIVE_CRAFT_MAX_OPERATIONS };
    let ghost n = operations as int;
    assert(n == live_operations(*plan));
    // The first short ingredient by id, if any.
    let mut worst: Option<(usize, u128, u32)> = None;
    let mut i: usize = 0;
    while i < plan.placements.len()
        invariant
            i <= ps.len(),
            ps == plan.placements@,
            n == operations,
            ps.len() > 0,
            !needs_table(ps),
            match worst {
                None => forall|j: int| 0 <= j < i ==> !short_of(ps, stock@, n, #[trigger] ps[j].item@),
                Some((w, missing, have)) => {
                    &&& w < ps.len()
                    &&& short_of(ps, stock@, n, ps[w as int].item@)
                    &&& have == count_of(stock@, ps[w as int].item@)
                    &&& missing == n * occurrences(ps, ps[w as int].item@) - have
                    &&& forall|j: int| 0 <= j < i && short_of(ps, stock@, n, #[trigger] ps[j].item@)
                        && ps[j].item@ != ps[w as int].item@ ==> seq_lt(ps[w as int].item@, ps[j].item@)
                },
            },
        decreases ps.len() - i,
    {
        let item = plan.placements[i].item.as_str();
        let occ = count_occurrences(&plan.placements, item);
        assert((operations as u128) * (occ as u128) <= 0xFFFF_FFFF * 0xFFFF_FFFF_FFFF_FFFFu128) by (nonlinear_arith)
            requires
                operations <= 0xFFFF_FFFFu32,
                occ <= 0xFFFF_FFFF_FFFF_FFFFu64,
        ;
        let needed: u128 = (operations as u128) * (occ as u128);
        let have = stock.get(item);
        if (have as u128) < needed {
            let better = match worst {
                None => true,
                Some((w, _, _)) => str_lt(item, plan.placements[w].item.as_str()),
            };
            if better {
                proof {
                    if let Some((w, _, _)) = worst {
                        assert forall|j: int| 0 <= j < i && short_of(ps, stock@, n, #[trigger] ps[j].item@)
                            && ps[j].item@ != ps[i as int].item@ implies seq_lt(ps[i as int].item@, ps[j].item@) by {
                            if ps[j].item@ != ps[w as int].item@ {
                                crate::text::lemma_seq_lt_transitive(ps[i as int].item@, ps[w as int].item@, ps[j].item@);
                            }
                        }
                    }
                }
                worst = Some((i, needed - (have as u128), have));
            } else {
                proof {
                    if let Some((w, _, _)) = worst {
                        if ps[i as int].item@ != ps[w as int].item@ {
                            lemma_seq_lt_total(ps[i as int].item@, ps[w as int].item@);
                        }
                    }
                }
            }
        }
        i = i + 1;
    }
    match worst {
        None => {
            assert forall|item: Seq<char>| placed(ps, item) implies !short_of(ps, stock@, n, item) by {
                let j = choose|j: int| 0 <= j < ps.len() && ps[j].item@ == item;
                assert(!short_of(ps, stock@, n, ps[j].item@));
            }
            Ok(operations)
        },
        Some((w, missing, have)) => {
            proof {
                assert(placed(ps, ps[w as int].item@));
                assert forall|other: Seq<char>| placed(ps, other) && short_of(ps, stock@, n, other) && other != ps[w as int].item@
                    implies seq_lt(ps[w as int].item@, other) by {
                    let j = choose|j: int| 0 <= j < ps.len() && ps[j].item@ == other;
                    assert(short_of(ps, stock@, n, ps[j].item@));
                }
            }
            Err(LiveCraftRefusal::Missing { item: plan.placements[w].item.clone(), missing, have })
        },
    }
}

/// Whether `plan` is the grid plan for `count` of `recipe` with the
/// placements `ps` (what [`RecipeBook::resolve_grid`] builds).
pub open spec fn grid_plan(plan: ResolvedCraftPlan, recipe: Recipe, count: u32, ps: Seq<PlacementView>) -> bool {
    &&& plan.recipe_id@ == recipe.id@
    &&& plan.output_item@ == recipe.output@
    &&& plan.output_per_craft == recipe.output_count
    &&& plan.requested_output == count
    &&& plan.shaped == (recipe.layout is Shaped)
    &&& plan.placements@.map_values(|p: IngredientPlacement| p@) == ps
}

/// Whether `r` is what the check of `plan` against `stock` answers.
pub open spec fn live_outcome(plan: ResolvedCraftPlan, stock: Map<Seq<char>, u32>, r: Result<(ResolvedCraftPlan, u32), LiveCraftRefusal>) -> bool {
    match r {
        Ok((p, ops)) => p == plan && plan_refusal_of(plan, stock, Ok(ops)),
        Err(e) => plan_refusal_of(plan, stock, Err(e)),
    }
}

/// Prepares a live craft of `count` of `target` from the held `stock`:
/// refuses a zero count, then a recipe that does not resolve (with the
/// failure [`RecipeBook::resolve_grid`] gives), then checks the resolved
/// plan ([`check_live_plan`]); returns the plan and the operations to run.
pub fn prepare_live_craft(book: &RecipeBook, target: &str, count: u32, stock: &ItemCounts)
    -> (r: Result<(ResolvedCraftPlan, u32), LiveCraftRefusal>)
    ensures
        count == 0 ==> r matches Err(LiveCraftRefusal::ZeroCount),
        count > 0 ==> ({
            let candidates = recipes_making(book.recipe_seq(), normalized(target@));
            if candidates.len() == 0 {
                r matches Err(LiveCraftRefusal::Unresolved(f)) && f@ == FailureView::UnknownItem(normalized(target@))
            } else {
                let recipe = preferred_recipe(candidates);
                match recipe_placements(book.tag_seq(), stock@, recipe) {
                    Err(e) => r matches Err(LiveCraftRefusal::Unresolved(f)) && f@ == e,
                    Ok(ps) => exists|plan: ResolvedCraftPlan| #[trigger] grid_plan(plan, recipe, count, ps) && live_outcome(plan, stock@, r),
                }
            }
        }),
{
    if count == 0 {
        return Err(LiveCraftRefusal::ZeroCount);
    }
    let plan = match book.resolve_grid(target, count, stock) {
        Ok(plan) => plan,
        Err(f) => return Err(LiveCraftRefusal::Unresolved(f)),
    };
    let r = match check_live_plan(&plan, stock) {
        Ok(ops) => Ok((plan, ops)),
        Err(e) => Err(e),
    };
    proof {
        let candidates = recipes_making(book.recipe_seq(), normalized(target@));
        let recipe = preferred_recipe(candidates);
        if candidates.len() > 0 {
            if let Ok(ps) = recipe_placements(book.tag_seq(), stock@, recipe) {
                assert(grid_plan(plan, recipe, count, ps));
                assert(live_outcome(plan, stock@, r));
            }
        }
    }
    r
}

/// The player-menu slot a placement goes to: the 2x2 grid's slots are 1 to
/// 4, row by row.
pub fn player_grid_slot(placement: &IngredientPlacement) -> (slot: usize)
    ensures
        slot == 1 + 2 * placement.row + placement.column,
{
    1 + 2 * (placement.row as usize) + placement.column as usize
}

/// Where a live craft is.
#[derive(Clone, Copy, Debug, PartialEq, Eq, Structural)]
pub enum LivePhase {
    /// About to start an operation: the stop switch is read first.
    Checking,
    /// Placement `j` of the current operation was asked for.
    Placing(usize),
    /// The output was asked for.
    Taking,
    /// The craft is over.
    Done,
}

/// How a live craft ended.
#[derive(Clone, Copy, Debug, PartialEq, Eq, Structural)]
pub enum LiveOutcome {
    /// Every operation ran: this many items were crafted.
    Crafted(u32),
    /// A stop was asked for before an operation.
    Cancelled,
    /// A placement or the output was not confirmed.
    Failed,
}

/// A live craft in progress.
#[derive(Clone, Copy, Debug, PartialEq, Eq, Structural)]
pub struct LiveRun {
    pub phase: LivePhase,
    /// Operations completed.
    pub done: u32,
    /// Operations the craft is for.
    pub operations: u32,
    /// Items crafted so far.
    pub crafted: u32,
    /// How it ended, once it has.
    pub outcome: Option<LiveOutcome>,
}

/// The answer to a live craft's request.
#[derive(Clone, Copy, Debug, PartialEq, Eq, Structural)]
pub enum LiveEvent {
    /// The stop switch.
    Cancelled(bool),
    /// Whether the click step (a placement or taking the output) was
    /// confirmed.
    Clicked(bool),
}

/// What a live craft asks next.
#[derive(Clone, Debug, PartialEq, Eq)]
pub enum LiveRequest {
    /// Read the stop switch.
    CheckCancel,
    /// Place one `item` on the player-menu slot `slot`.
    Place { slot: usize, item: String },
    /// Take the output, one operation's worth of `item`.
    TakeOutput { item: String },
    /// Nothing more: the craft is over.
    Finished,
}

/// What a live craft of `plan` in `v`'s phase asks: the stop switch before
/// each operation, then each placement in order on its player-grid slot
/// ([`player_grid_slot`]), then the output.
pub open spec fn live_request_spec(plan: ResolvedCraftPlan, v: LiveRun) -> LiveRequest {
    match v.phase {
        LivePhase::Checking => LiveRequest::CheckCancel,
        LivePhase::Placing(j) => LiveRequest::Place {
            slot: (1 + 2 * plan.placements@[j as int].row + plan.placements@[j as int].column) as usize,
            item: plan.placements@[j as int].item,
        },
        LivePhase::Taking => LiveRequest::TakeOutput { item: plan.output_item },
        LivePhase::Done => LiveRequest::Finished,
    }
}

/// One step of a live craft: a stop request ends it `Cancelled` before an
/// operation; an unconfirmed click ends it `Failed`; a confirmed placement
/// moves to the next one, then to the output; a confirmed output counts
/// the operation, and the craft ends `Crafted` once every operation ran.
/// An answer that does not fit the request changes nothing.
pub open spec fn live_step_spec(plan: ResolvedCraftPlan, v: LiveRun, e: LiveEvent) -> LiveRun {
    match (v.phase, e) {
        (LivePhase::Checking, LiveEvent::Cancelled(c)) => if c {
            LiveRun { phase: LivePhase::Done, outcome: Some(LiveOutcome::Cancelled), ..v }
        } else {
            LiveRun { phase: LivePhase::Placing(0), ..v }
        },
        (LivePhase::Placing(j), LiveEvent::Clicked(ok)) => if !ok {
            LiveRun { phase: LivePhase::Done, outcome: Some(LiveOutcome::Failed), ..v }
        } else if j + 1 < plan.placements@.len() {
            LiveRun { phase: LivePhase::Placing((j + 1) as usize), ..v }
        } else {
            LiveRun { phase: LivePhase::Taking, ..v }
        },
        (LivePhase::Taking, LiveEvent::Clicked(ok)) => if !ok {
            LiveRun { phase: LivePhase::Done, outcome: Some(LiveOutcome::Failed), ..v }
        } else {
            let done = (v.done + 1) as u32;
            let crafted = (v.crafted + plan.output_per_craft) as u32;
            if done == v.operations {
                LiveRun { phase: LivePhase::Done, done, crafted, outcome: Some(LiveOutcome::Crafted(crafted)), ..v }
            } else {
                LiveRun { phase: LivePhase::Checking, done, crafted, ..v }
            }
        },
        _ => v,
    }
}

/// The facts a live craft keeps at every step.
pub open spec fn live_wf(plan: ResolvedCraftPlan, v: LiveRun) -> bool {
    let ps = plan.placements@;
    &&& ps.len() > 0
    &&& !needs_table(ps)
    &&& v.operations * plan.output_per_craft <= u32::MAX
    &&& v.done <= v.operations
    &&& v.crafted == v.done * plan.output_per_craft
    &&& (v.phase matches LivePhase::Placing(j) ==> j < ps.len())
    &&& v.phase != LivePhase::Done ==> v.done < v.operations && v.outcome is None
    &&& v.phase == LivePhase::Done ==> v.outcome is Some
    &&& (v.outcome matches Some(LiveOutcome::Crafted(n)) ==> n == v.operations * plan.output_per_craft
        && v.done == v.operations)
}

/// How a live craft of `operations` operations starts: checking the stop
/// switch, or over at once with nothing to do.
pub fn live_begin(plan: &ResolvedCraftPlan, operations: u32) -> (v: LiveRun)
    requires
        plan.placements@.len() > 0,
        !needs_table(plan.placements@),
        operations * plan.output_per_craft <= u32::MAX,
    ensures
        v == (if operations == 0 {
            LiveRun { phase: LivePhase::Done, done: 0, operations, crafted: 0, outcome: Some(LiveOutcome::Crafted(0)) }
        } else {
            LiveRun { phase: LivePhase::Checking, done: 0, operations, crafted: 0, outcome: None }
        }),
        live_wf(*plan, v),
{
    proof {
        assert(0 * plan.output_per_craft == 0) by (nonlinear_arith);
    }
    if operations == 0 {
        LiveRun { phase: LivePhase::Done, done: 0, operations, crafted: 0, outcome: Some(LiveOutcome::Crafted(0)) }
    } else {
        LiveRun { phase: LivePhase::Checking, done: 0, operations, crafted: 0, outcome: None }
    }
}

/// What the live craft asks next ([`live_request_spec`]).
pub fn live_request(plan: &ResolvedCraftPlan, v: &LiveRun) -> (q: LiveRequest)
    requires
        live_wf(*plan, *v),
    ensures
        q == live_request_spec(*plan, *v),
{
    match v.phase {
        LivePhase::Checking => LiveRequest::CheckCancel,
        LivePhase::Placing(j) => {
            let placement = &plan.placements[j];
            LiveRequest::Place { slot: player_grid_slot(placement), item: placement.item.clone() }
        },
        LivePhase::Taking => LiveRequest::TakeOutput { item: plan.output_item.clone() },
        LivePhase::Done => LiveRequest::Finished,
    }
}

/// Answers the live craft's request ([`live_step_spec`]).
pub fn live_step(plan: &ResolvedCraftPlan, v: &LiveRun, e: LiveEvent) -> (n: LiveRun)
    requires
        live_wf(*plan, *v),
    ensures
        n == live_step_spec(*plan, *v, e),
        live_wf(*plan, n),
{
    match (v.phase, e) {
        (LivePhase::Checking, LiveEvent::Cancelled(c)) => if c {
            LiveRun { phase: LivePhase::Done, outcome: Some(LiveOutcome::Cancelled), ..*v }
        } else {
            LiveRun { phase: LivePhase::Placing(0), ..*v }
        },
        (LivePhase::Placing(j), LiveEvent::Clicked(ok)) => if !ok {
            LiveRun { phase: LivePhase::Done, outcome: Some(LiveOutcome::Failed), ..*v }
        } else if j < plan.placements.len() - 1 {
            LiveRun { phase: LivePhase::Placing(j + 1), ..*v }
        } else {
            LiveRun { phase: LivePhase::Taking, ..*v }
        },
        (LivePhase::Taking, LiveEvent::Clicked(ok)) => if !ok {
            LiveRun { phase: LivePhase::Done, outcome: Some(LiveOutcome::Failed), ..*v }
        } else {
            proof {
                assert((v.done + 1) * plan.output_per_craft <= v.operations * plan.output_per_craft) by (nonlinear_arith)
                    requires
                        v.done + 1 <= v.operations,
                ;
                assert((v.done + 1) * plan.output_per_craft == v.done * plan.output_per_craft + plan.output_per_craft)
                    by (nonlinear_arith);
            }
            let done = v.done + 1;
            let crafted = v.crafted + plan.output_per_craft;
            if done == v.operations {
                LiveRun { phase: LivePhase::Done, done, crafted, outcome: Some(LiveOutcome::Crafted(crafted)), ..*v }
            } else {
                LiveRun { phase: LivePhase::Checking, done, crafted, ..*v }
            }
        },
        _ => *v,
    }
}

} // verus!
