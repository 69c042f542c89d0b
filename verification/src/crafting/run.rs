//! A crafting run as a state machine: from the run so far and the answer
//! to its last request, the next run and the next request to put to the
//! driver (or the clock and the stop switch). The driver loop in
//! [`crate::crafting::execution::execute_from_snapshot`] only performs the
//! requests and hands the answers back.
use vstd::prelude::*;
use crate::crafting::execution::{
    consumed_map, copy_cursor, copy_grid, detail, finished, finish_status, fresh_result, grid_cell, grid_extent, grid_width, holds_leftovers,
    leftovers_in, menu_for, menu_request, menu_request_for, open_outcome, open_reply, operation_outcome, operation_reply,
    operations_for, placement_outcome, placement_reply, placements_bounded, plan_invalid, preflight, preflight_passes,
    record_operation, shortfall, cell_extent, CraftResult, CraftStatus, CraftingMenu,
    CraftingOptions, DriverError, MenuRequest, MenuSnapshot, ResolvedCraftPlan, StepOutcome,
};

verus! {

/// Where a crafting run is.
#[derive(Clone, Copy, Debug, PartialEq, Eq, Structural)]
pub enum RunPhase {
    /// The menu was asked for; awaiting the reply.
    Opening,
    /// About to start an operation; awaiting the clock and the stop switch.
    Checking,
    /// Placement `j` of the current operation was asked for.
    Placing(usize),
    /// Placement `j` was accepted; awaiting the stop switch.
    Confirming(usize),
    /// The output was asked for.
    Taking,
    /// The run has stopped and the grid is being taken back.
    Recovering,
    /// The run is over.
    Done,
}

/// What the run needs next.
#[derive(Clone, Debug, PartialEq, Eq)]
pub enum CraftRequest {
    /// Open the player's own grid.
    OpenPlayer,
    /// Open a known table within `radius`, walking to it when `navigate`.
    OpenTable { radius: u32, navigate: bool },
    /// Report whether the time is up and whether a stop was asked for.
    CheckLimits,
    /// Put one `item` on grid cell `cell`, after revision `after`.
    PlaceOne { cell: usize, item: String, after: u64 },
    /// Report whether a stop was asked for.
    CheckCancel,
    /// Take one operation's output of `item`, after revision `after`.
    TakeOutput { item: String, after: u64 },
    /// Take back what is left on the cursor and in the grid, after
    /// revision `after`.
    Recover { after: u64 },
    /// Nothing more: the run is over.
    Finished,
}

/// The answer to a request.
#[derive(Debug)]
pub enum CraftEvent {
    /// The driver's reply to an open, place, take or recover request.
    Reply(Result<MenuSnapshot, DriverError>),
    /// The clock and the stop switch, for [`CraftRequest::CheckLimits`].
    Limits { timed_out: bool, cancelled: bool },
    /// The stop switch, for [`CraftRequest::CheckCancel`].
    Cancelled(bool),
}

/// The plain content of a [`CraftResult`].
pub struct ResultView {
    pub status: CraftStatus,
    pub recipe_id: Seq<char>,
    pub requested: u32,
    pub crafted: u32,
    pub completed_operations: u32,
    pub consumed: Map<Seq<char>, u32>,
    pub missing: Map<Seq<char>, u32>,
    pub menu: Option<CraftingMenu>,
    pub initial_revision: u64,
    pub final_revision: u64,
    pub cursor: Option<(String, u32)>,
    pub grid: Seq<Option<String>>,
    pub recovered: bool,
    pub detail: Option<Seq<char>>,
}

/// The plain content of an optional text.
pub open spec fn text_of(t: Option<String>) -> Option<Seq<char>> {
    match t {
        Some(s) => Some(s@),
        None => None,
    }
}

/// The plain content of a [`CraftResult`].
pub open spec fn result_view(r: CraftResult) -> ResultView {
    ResultView {
        status: r.status,
        recipe_id: r.recipe_id@,
        requested: r.requested,
        crafted: r.crafted,
        completed_operations: r.completed_operations,
        consumed: r.ingredients_consumed@,
        missing: r.missing@,
        menu: r.menu,
        initial_revision: r.initial_revision,
        final_revision: r.final_revision,
        cursor: r.cursor,
        grid: r.grid@,
        recovered: r.recovered,
        detail: text_of(r.detail),
    }
}

/// A crafting run in progress.
pub struct CraftRun {
    pub phase: RunPhase,
    pub result: CraftResult,
    /// The revision of the snapshot the run started from.
    pub start_revision: u64,
    /// The latest accepted snapshot, once the menu is open.
    pub state: Option<MenuSnapshot>,
    /// Operations completed.
    pub done: u32,
    /// Operations the run is for.
    pub operations: u32,
    /// The menu the plan is crafted in.
    pub wanted: CraftingMenu,
}

/// The plain content of a [`CraftRun`].
pub struct RunView {
    pub phase: RunPhase,
    pub result: ResultView,
    pub start_revision: u64,
    pub state: Option<MenuSnapshot>,
    pub done: u32,
    pub operations: u32,
    pub wanted: CraftingMenu,
}

impl View for CraftRun {
    type V = RunView;

    open spec fn view(&self) -> RunView {
        RunView {
            phase: self.phase,
            result: result_view(self.result),
            start_revision: self.start_revision,
            state: self.state,
            done: self.done,
            operations: self.operations,
            wanted: self.wanted,
        }
    }
}

/// The record of a run that has done nothing, starting at `start`.
pub open spec fn fresh_view(plan: ResolvedCraftPlan, start: MenuSnapshot) -> ResultView {
    ResultView {
        status: CraftStatus::Rejected,
        recipe_id: plan.recipe_id@,
        requested: plan.requested_output,
        crafted: 0,
        completed_operations: 0,
        consumed: Map::empty(),
        missing: Map::empty(),
        menu: None,
        initial_revision: start.revision,
        final_revision: start.revision,
        cursor: start.cursor,
        grid: start.grid@,
        recovered: false,
        detail: None,
    }
}

/// Whether `v` is how a run of `plan` starts from `start`. When the checks
/// on `start` fail, the run is over with their result and asks nothing;
/// when the plan needs a table and tables are not allowed, it is over as
/// `WrongMenu`; otherwise it is opening the plan's menu with nothing done.
pub open spec fn run_begins(plan: ResolvedCraftPlan, options: CraftingOptions, start: MenuSnapshot, v: RunView) -> bool {
    let n = operations_for(plan.requested_output, plan.output_per_craft);
    if !preflight_passes(plan, options, start) {
        &&& v.phase == RunPhase::Done
        &&& v.state is None
        &&& v.start_revision == start.revision
        &&& v.result.recipe_id == plan.recipe_id@
        &&& v.result.requested == plan.requested_output
        &&& v.result.crafted == 0
        &&& v.result.completed_operations == 0
        &&& v.result.consumed == Map::<Seq<char>, u32>::empty()
        &&& v.result.menu is None
        &&& v.result.initial_revision == start.revision
        &&& v.result.final_revision == start.revision
        &&& v.result.cursor == start.cursor
        &&& v.result.grid == start.grid@
        &&& !v.result.recovered
        &&& plan_invalid(plan) ==> v.result.status == CraftStatus::Rejected
            && v.result.detail == Some("invalid resolved plan"@)
        &&& !plan_invalid(plan) && n > options.maximum_operations ==> v.result.status == CraftStatus::Rejected
            && v.result.detail == Some("operation bound exceeded"@)
        &&& !plan_invalid(plan) && n <= options.maximum_operations
            && !(shortfall(plan.placements@, n, start.inventory@).dom() =~= Set::<Seq<char>>::empty())
            ==> v.result.status == CraftStatus::MissingMaterials
                && v.result.missing == shortfall(plan.placements@, n, start.inventory@)
        &&& !plan_invalid(plan) && n <= options.maximum_operations
            && shortfall(plan.placements@, n, start.inventory@).dom() =~= Set::<Seq<char>>::empty()
            ==> v.result.status == CraftStatus::NoSpace
        &&& v.result.status != CraftStatus::MissingMaterials ==> v.result.missing == Map::<Seq<char>, u32>::empty()
    } else if menu_request_for(plan, options) == MenuRequest::Refused {
        v == (RunView {
            phase: RunPhase::Done,
            result: ResultView {
                status: CraftStatus::WrongMenu,
                detail: Some("could not open crafting menu"@),
                ..fresh_view(plan, start)
            },
            start_revision: start.revision,
            state: None,
            done: 0,
            operations: n as u32,
            wanted: menu_for(plan, options),
        })
    } else {
        v == (RunView {
            phase: RunPhase::Opening,
            result: fresh_view(plan, start),
            start_revision: start.revision,
            state: None,
            done: 0,
            operations: n as u32,
            wanted: menu_for(plan, options),
        })
    }
}

/// What a run asks next: the plan's menu while opening; the clock and
/// the stop switch before each operation; placement `j` -- its item on
/// cell [`grid_cell`] after the latest accepted revision; the stop switch
/// after an accepted placement; the output after the latest revision; the
/// grid back after the latest revision; nothing once over.
pub open spec fn run_request(plan: ResolvedCraftPlan, options: CraftingOptions, v: RunView) -> CraftRequest {
    match v.phase {
        RunPhase::Opening => match menu_request_for(plan, options) {
            MenuRequest::Player => CraftRequest::OpenPlayer,
            MenuRequest::Table { radius, navigate } => CraftRequest::OpenTable { radius, navigate },
            MenuRequest::Refused => CraftRequest::Finished,
        },
        RunPhase::Checking => CraftRequest::CheckLimits,
        RunPhase::Placing(j) => CraftRequest::PlaceOne {
            cell: (plan.placements@[j as int].row * grid_width(v.wanted) + plan.placements@[j as int].column) as usize,
            item: plan.placements@[j as int].item,
            after: v.state->0.revision,
        },
        RunPhase::Confirming(_) => CraftRequest::CheckCancel,
        RunPhase::Taking => CraftRequest::TakeOutput { item: plan.output_item, after: v.state->0.revision },
        RunPhase::Recovering => CraftRequest::Recover { after: v.state->0.revision },
        RunPhase::Done => CraftRequest::Finished,
    }
}

/// The run with its result's status set.
pub open spec fn with_status(v: RunView, status: CraftStatus) -> RunView {
    RunView { result: ResultView { status, ..v.result }, ..v }
}

/// The result settled on the snapshot `s`: its revision, cursor and grid.
pub open spec fn settled(r: ResultView, s: MenuSnapshot) -> ResultView {
    ResultView { final_revision: s.revision, cursor: s.cursor, grid: s.grid@, ..r }
}

/// Stopping the run: the grid is taken back first when asked to and
/// something is left on the cursor or in the grid; otherwise the run is
/// over, settled on the latest accepted snapshot.
pub open spec fn stopped(options: CraftingOptions, v: RunView) -> RunView {
    if options.restore_grid && leftovers_in(v.state->0) {
        RunView { phase: RunPhase::Recovering, ..v }
    } else {
        RunView { phase: RunPhase::Done, result: settled(v.result, v.state->0), ..v }
    }
}

/// One step of a run against the answer to its request. Each reply is
/// judged by [`open_outcome`], [`placement_outcome`] or
/// [`operation_outcome`]; an accepted one moves the run on (the next
/// placement, the output, the next operation, and `Completed` once every
/// operation counted), anything else stops it -- as `Partial` once
/// something was crafted. A timeout or a stop request stops it too. An
/// answer that does not fit the request changes nothing.
pub open spec fn run_step(plan: ResolvedCraftPlan, options: CraftingOptions, v: RunView, e: CraftEvent) -> RunView {
    match v.phase {
        RunPhase::Opening => match e {
            CraftEvent::Reply(rep) => match open_outcome(v.start_revision, v.wanted, rep) {
                StepOutcome::Accepted => RunView {
                    phase: RunPhase::Checking,
                    state: Some(rep->Ok_0),
                    result: ResultView { menu: Some(v.wanted), ..v.result },
                    ..v
                },
                StepOutcome::Stopped(status) => RunView {
                    phase: RunPhase::Done,
                    result: ResultView {
                        status,
                        final_revision: if rep is Ok { rep->Ok_0.revision } else { v.result.final_revision },
                        detail: if rep is Ok {
                            Some("crafting menu was not authoritatively opened"@)
                        } else {
                            Some("could not open crafting menu"@)
                        },
                        ..v.result
                    },
                    ..v
                },
            },
            _ => v,
        },
        RunPhase::Checking => match e {
            CraftEvent::Limits { timed_out, cancelled } => if timed_out {
                stopped(options, with_status(v, finished(CraftStatus::TimedOut, v.done)))
            } else if cancelled {
                stopped(options, with_status(v, finished(CraftStatus::Cancelled, v.done)))
            } else {
                RunView { phase: RunPhase::Placing(0), ..v }
            },
            _ => v,
        },
        RunPhase::Placing(j) => match e {
            CraftEvent::Reply(rep) => match placement_outcome(v.state->0.revision, rep) {
                StepOutcome::Accepted => RunView { phase: RunPhase::Confirming(j), state: Some(rep->Ok_0), ..v },
                StepOutcome::Stopped(status) => stopped(options, RunView {
                    result: ResultView {
                        status: finished(status, v.done),
                        detail: if rep is Ok { Some("ingredient mutation had no revision"@) } else { v.result.detail },
                        ..v.result
                    },
                    ..v
                }),
            },
            _ => v,
        },
        RunPhase::Confirming(j) => match e {
            CraftEvent::Cancelled(c) => if c {
                stopped(options, with_status(v, finished(CraftStatus::Cancelled, v.done)))
            } else if j + 1 < plan.placements@.len() {
                RunView { phase: RunPhase::Placing((j + 1) as usize), ..v }
            } else {
                RunView { phase: RunPhase::Taking, ..v }
            },
            _ => v,
        },
        RunPhase::Taking => match e {
            CraftEvent::Reply(rep) => match operation_outcome(plan, v.state->0, rep) {
                StepOutcome::Accepted => {
                    let d = v.done + 1;
                    let counted = RunView {
                        state: Some(rep->Ok_0),
                        done: d as u32,
                        result: ResultView {
                            completed_operations: d as u32,
                            crafted: (v.result.crafted + plan.output_per_craft) as u32,
                            consumed: consumed_map(plan.placements@, d),
                            ..v.result
                        },
                        ..v
                    };
                    if d == v.operations {
                        stopped(options, with_status(counted, CraftStatus::Completed))
                    } else {
                        RunView { phase: RunPhase::Checking, ..counted }
                    }
                },
                StepOutcome::Stopped(status) => stopped(options, RunView {
                    state: if rep is Ok { Some(rep->Ok_0) } else { v.state },
                    result: ResultView {
                        status: finished(status, v.done),
                        detail: if rep is Ok { Some("output inventory delta was not confirmed"@) } else { v.result.detail },
                        ..v.result
                    },
                    ..v
                }),
            },
            _ => v,
        },
        RunPhase::Recovering => match e {
            CraftEvent::Reply(rep) => if rep is Ok && rep->Ok_0.revision > v.state->0.revision {
                RunView {
                    phase: RunPhase::Done,
                    result: ResultView { recovered: true, ..settled(v.result, rep->Ok_0) },
                    ..v
                }
            } else {
                RunView { phase: RunPhase::Done, result: settled(v.result, v.state->0), ..v }
            },
            _ => v,
        },
        RunPhase::Done => v,
    }
}

/// The run after answering each of `events` in turn.
pub open spec fn run_over(plan: ResolvedCraftPlan, options: CraftingOptions, v: RunView, events: Seq<CraftEvent>) -> RunView
    decreases events.len(),
{
    if events.len() == 0 {
        v
    } else {
        run_step(plan, options, run_over(plan, options, v, events.drop_last()), events.last())
    }
}

/// What a run reports, however it ends.
pub open spec fn accounted(r: ResultView, plan: ResolvedCraftPlan) -> bool {
    let total = operations_for(plan.requested_output, plan.output_per_craft);
    &&& r.recipe_id == plan.recipe_id@
    &&& r.requested == plan.requested_output
    &&& r.completed_operations <= total
    &&& r.crafted == r.completed_operations * plan.output_per_craft
    &&& r.consumed == consumed_map(plan.placements@, r.completed_operations as int)
    &&& (r.status == CraftStatus::Completed) == (r.completed_operations > 0 && r.completed_operations == total)
    &&& (r.status == CraftStatus::Partial) == (0 < r.completed_operations < total)
}

/// The facts a run keeps at every step.
pub open spec fn run_wf(plan: ResolvedCraftPlan, options: CraftingOptions, v: RunView) -> bool {
    let ps = plan.placements@;
    let active = v.phase != RunPhase::Done && v.phase != RunPhase::Recovering;
    &&& placements_bounded(ps)
    &&& v.result.recipe_id == plan.recipe_id@
    &&& v.result.requested == plan.requested_output
    &&& v.result.initial_revision == v.start_revision
    &&& v.result.menu is Some ==> v.result.menu == Some(menu_for(plan, options))
    &&& v.result.menu == Some(CraftingMenu::Table) ==> options.allow_table
    &&& v.result.completed_operations > 0 ==> v.result.menu is Some
    &&& v.result.recovered ==> options.restore_grid
    &&& v.phase == RunPhase::Recovering ==> options.restore_grid && v.state is Some
    &&& v.phase != RunPhase::Opening && v.phase != RunPhase::Done ==> v.state is Some
    &&& (active || v.phase == RunPhase::Recovering || v.result.completed_operations > 0) ==> {
        &&& !plan_invalid(plan)
        &&& v.operations == operations_for(plan.requested_output, plan.output_per_craft)
        &&& 0 < v.operations <= options.maximum_operations
        &&& v.operations * ps.len() <= u32::MAX
        &&& v.operations * plan.output_per_craft <= u32::MAX
        &&& v.wanted == menu_for(plan, options)
        &&& v.wanted == CraftingMenu::Table ==> options.allow_table
        &&& grid_extent(ps) <= 3
        &&& v.wanted == CraftingMenu::Player ==> grid_extent(ps) <= 2
        &&& v.done == v.result.completed_operations
        &&& v.result.crafted == v.done * plan.output_per_craft
        &&& v.result.consumed == consumed_map(ps, v.done as int)
        &&& v.done <= v.operations
    }
    &&& active ==> v.result.status == CraftStatus::Rejected && v.result.detail is None && !v.result.recovered
        && v.result.missing == Map::<Seq<char>, u32>::empty() && v.result.completed_operations < v.operations
    &&& active && v.phase != RunPhase::Opening ==> v.result.menu == Some(v.wanted)
    &&& v.phase == RunPhase::Opening ==> v.result.menu is None && v.done == 0
    &&& (v.phase matches RunPhase::Placing(j) ==> j < ps.len())
    &&& (v.phase matches RunPhase::Confirming(j) ==> j < ps.len())
    &&& v.phase == RunPhase::Opening ==> menu_request_for(plan, options) != MenuRequest::Refused
    &&& v.result.status == CraftStatus::MissingMaterials ==> v.result.menu is None && v.result.completed_operations == 0
    &&& !active ==> accounted(v.result, plan)
}

/// How a run starts from the snapshot `start` ([`run_begins`]): the
/// checks on `start` run first ([`preflight`]).
pub fn craft_begin(plan: &ResolvedCraftPlan, options: &CraftingOptions, start: &MenuSnapshot) -> (run: CraftRun)
    requires
        placements_bounded(plan.placements@),
        !plan_invalid(*plan) && operations_for(plan.requested_output, plan.output_per_craft) <= options.maximum_operations
            ==> operations_for(plan.requested_output, plan.output_per_craft) * plan.placements@.len() <= u32::MAX
                && operations_for(plan.requested_output, plan.output_per_craft) * plan.output_per_craft <= u32::MAX,
    ensures
        run_begins(*plan, *options, *start, run@),
        run_wf(*plan, *options, run@),
{
    match preflight(plan, options, start) {
        Err(early) => {
            proof {
                assert(early.ingredients_consumed@ =~= consumed_map(plan.placements@, 0));
            }
            CraftRun {
                phase: RunPhase::Done,
                result: early,
                start_revision: start.revision,
                state: None,
                done: 0,
                operations: 0,
                wanted: CraftingMenu::Player,
            }
        },
        Ok((operations, wanted)) => {
            let mut result = fresh_result(plan, start);
            proof {
                assert(result.ingredients_consumed@ =~= consumed_map(plan.placements@, 0));
                let m: int = plan.output_per_craft as int;
                assert((plan.requested_output + m - 1) / m >= 1) by (nonlinear_arith)
                    requires
                        m >= 1,
                        plan.requested_output >= 1,
                ;
                crate::crafting::execution::lemma_extent_bounds(plan.placements@);
            }
            match menu_request(plan, options) {
                MenuRequest::Refused => {
                    result.status = CraftStatus::WrongMenu;
                    result.detail = detail("could not open crafting menu");
                    CraftRun { phase: RunPhase::Done, result, start_revision: start.revision, state: None, done: 0, operations, wanted }
                },
                _ => CraftRun { phase: RunPhase::Opening, result, start_revision: start.revision, state: None, done: 0, operations, wanted },
            }
        },
    }
}

/// What the run asks next ([`run_request`]).
pub fn craft_request(plan: &ResolvedCraftPlan, options: &CraftingOptions, run: &CraftRun) -> (q: CraftRequest)
    requires
        run_wf(*plan, *options, run@),
    ensures
        q == run_request(*plan, *options, run@),
{
    match run.phase {
        RunPhase::Opening => match menu_request(plan, options) {
            MenuRequest::Player => CraftRequest::OpenPlayer,
            MenuRequest::Table { radius, navigate } => CraftRequest::OpenTable { radius, navigate },
            MenuRequest::Refused => CraftRequest::Finished,
        },
        RunPhase::Checking => CraftRequest::CheckLimits,
        RunPhase::Placing(j) => {
            let placement = &plan.placements[j];
            proof {
                crate::crafting::execution::lemma_extent_bounds(plan.placements@);
                assert(cell_extent(plan.placements@[j as int]) <= grid_extent(plan.placements@));
            }
            let cell = grid_cell(placement, run.wanted);
            let after = run.state.as_ref().unwrap().revision;
            CraftRequest::PlaceOne { cell, item: placement.item.clone(), after }
        },
        RunPhase::Confirming(_) => CraftRequest::CheckCancel,
        RunPhase::Taking => CraftRequest::TakeOutput {
            item: plan.output_item.clone(),
            after: run.state.as_ref().unwrap().revision,
        },
        RunPhase::Recovering => CraftRequest::Recover { after: run.state.as_ref().unwrap().revision },
        RunPhase::Done => CraftRequest::Finished,
    }
}

/// Stops the run ([`stopped`]).
fn stop(options: &CraftingOptions, run: &mut CraftRun)
    requires
        old(run).state is Some,
    ensures
        final(run)@ == stopped(*options, old(run)@),
{
    let state = run.state.as_ref().unwrap();
    let leftovers = holds_leftovers(state);
    if options.restore_grid && leftovers {
        run.phase = RunPhase::Recovering;
    } else {
        let revision = state.revision;
        let cursor = copy_cursor(&state.cursor);
        let grid = copy_grid(&state.grid);
        run.result.final_revision = revision;
        run.result.cursor = cursor;
        run.result.grid = grid;
        run.phase = RunPhase::Done;
    }
}

/// The run's status set to `status`.
fn set_status(run: &mut CraftRun, status: CraftStatus)
    ensures
        final(run)@ == with_status(old(run)@, status),
{
    run.result.status = status;
}

/// Answers the run's request with `event` ([`run_step`]).
pub fn craft_step(plan: &ResolvedCraftPlan, options: &CraftingOptions, run: &mut CraftRun, event: CraftEvent)
    requires
        run_wf(*plan, *options, old(run)@),
    ensures
        final(run)@ == run_step(*plan, *options, old(run)@, event),
        run_wf(*plan, *options, final(run)@),
{
    match run.phase {
        RunPhase::Opening => step_opening(plan, options, run, event),
        RunPhase::Checking => step_checking(plan, options, run, event),
        RunPhase::Placing(_) => step_placing(plan, options, run, event),
        RunPhase::Confirming(_) => step_confirming(plan, options, run, event),
        RunPhase::Taking => step_taking(plan, options, run, event),
        RunPhase::Recovering => step_recovering(plan, options, run, event),
        RunPhase::Done => {},
    }
}

fn step_opening(plan: &ResolvedCraftPlan, options: &CraftingOptions, run: &mut CraftRun, event: CraftEvent)
    requires
        run_wf(*plan, *options, old(run)@),
        old(run).phase == RunPhase::Opening,
    ensures
        final(run)@ == run_step(*plan, *options, old(run)@, event),
        run_wf(*plan, *options, final(run)@),
{
    if let CraftEvent::Reply(reply) = event {
        match open_reply(run.start_revision, run.wanted, &reply) {
            StepOutcome::Accepted => {
                if let Ok(s) = reply {
                    run.state = Some(s);
                }
                run.result.menu = Some(run.wanted);
                run.phase = RunPhase::Checking;
            },
            StepOutcome::Stopped(status) => {
                run.result.status = status;
                match reply {
                    Ok(s) => {
                        run.result.final_revision = s.revision;
                        run.result.detail = detail("crafting menu was not authoritatively opened");
                    },
                    Err(_) => {
                        run.result.detail = detail("could not open crafting menu");
                    },
                }
                run.phase = RunPhase::Done;
                proof {
                    assert(run.result.ingredients_consumed@ =~= consumed_map(plan.placements@, 0));
                }
            },
        }
    }
}

fn step_checking(plan: &ResolvedCraftPlan, options: &CraftingOptions, run: &mut CraftRun, event: CraftEvent)
    requires
        run_wf(*plan, *options, old(run)@),
        old(run).phase == RunPhase::Checking,
    ensures
        final(run)@ == run_step(*plan, *options, old(run)@, event),
        run_wf(*plan, *options, final(run)@),
{
    if let CraftEvent::Limits { timed_out, cancelled } = event {
        if timed_out {
            let status = finish_status(CraftStatus::TimedOut, run.done);
            set_status(run, status);
            stop(options, run);
        } else if cancelled {
            let status = finish_status(CraftStatus::Cancelled, run.done);
            set_status(run, status);
            stop(options, run);
        } else {
            run.phase = RunPhase::Placing(0);
        }
    }
}

fn step_placing(plan: &ResolvedCraftPlan, options: &CraftingOptions, run: &mut CraftRun, event: CraftEvent)
    requires
        run_wf(*plan, *options, old(run)@),
        old(run).phase is Placing,
    ensures
        final(run)@ == run_step(*plan, *options, old(run)@, event),
        run_wf(*plan, *options, final(run)@),
{
    let j = match run.phase {
        RunPhase::Placing(j) => j,
        _ => 0,
    };
    if let CraftEvent::Reply(reply) = event {
        let revision = run.state.as_ref().unwrap().revision;
        match placement_reply(revision, &reply) {
            StepOutcome::Accepted => {
                if let Ok(s) = reply {
                    run.state = Some(s);
                }
                run.phase = RunPhase::Confirming(j);
            },
            StepOutcome::Stopped(status) => {
                let status = finish_status(status, run.done);
                set_status(run, status);
                if reply.is_ok() {
                    run.result.detail = detail("ingredient mutation had no revision");
                }
                stop(options, run);
            },
        }
    }
}

fn step_confirming(plan: &ResolvedCraftPlan, options: &CraftingOptions, run: &mut CraftRun, event: CraftEvent)
    requires
        run_wf(*plan, *options, old(run)@),
        old(run).phase is Confirming,
    ensures
        final(run)@ == run_step(*plan, *options, old(run)@, event),
        run_wf(*plan, *options, final(run)@),
{
    let j = match run.phase {
        RunPhase::Confirming(j) => j,
        _ => 0,
    };
    if let CraftEvent::Cancelled(c) = event {
        if c {
            let status = finish_status(CraftStatus::Cancelled, run.done);
            set_status(run, status);
            stop(options, run);
        } else if j < plan.placements.len() - 1 {
            run.phase = RunPhase::Placing(j + 1);
        } else {
            run.phase = RunPhase::Taking;
        }
    }
}

fn step_taking(plan: &ResolvedCraftPlan, options: &CraftingOptions, run: &mut CraftRun, event: CraftEvent)
    requires
        run_wf(*plan, *options, old(run)@),
        old(run).phase == RunPhase::Taking,
    ensures
        final(run)@ == run_step(*plan, *options, old(run)@, event),
        run_wf(*plan, *options, final(run)@),
{
    let ghost ps = plan.placements@;
    if let CraftEvent::Reply(reply) = event {
        let outcome = operation_reply(plan, run.state.as_ref().unwrap(), &reply);
        match outcome {
            StepOutcome::Accepted => {
                if let Ok(s) = reply {
                    run.state = Some(s);
                }
                let done = run.done;
                proof {
                    assert((done + 1) * ps.len() <= run.operations * ps.len()) by (nonlinear_arith)
                        requires
                            done + 1 <= run.operations,
                    ;
                    assert((done + 1) * plan.output_per_craft <= run.operations * plan.output_per_craft) by (nonlinear_arith)
                        requires
                            done + 1 <= run.operations,
                    ;
                    assert((done + 1) * plan.output_per_craft == done * plan.output_per_craft + plan.output_per_craft)
                        by (nonlinear_arith);
                }
                record_operation(&mut run.result.ingredients_consumed, plan, done);
                run.result.completed_operations = done + 1;
                run.result.crafted = run.result.crafted + plan.output_per_craft;
                run.done = done + 1;
                if run.done == run.operations {
                    set_status(run, CraftStatus::Completed);
                    stop(options, run);
                } else {
                    run.phase = RunPhase::Checking;
                }
            },
            StepOutcome::Stopped(status) => {
                let status = finish_status(status, run.done);
                set_status(run, status);
                if let Ok(s) = reply {
                    run.state = Some(s);
                    run.result.detail = detail("output inventory delta was not confirmed");
                }
                stop(options, run);
            },
        }
    }
}

/// The result's final revision, cursor and grid taken from `state`.
fn settle_from(result: &mut CraftResult, state: &MenuSnapshot)
    ensures
        result_view(*final(result)) == settled(result_view(*old(result)), *state),
{
    result.final_revision = state.revision;
    result.cursor = copy_cursor(&state.cursor);
    result.grid = copy_grid(&state.grid);
}

fn step_recovering(plan: &ResolvedCraftPlan, options: &CraftingOptions, run: &mut CraftRun, event: CraftEvent)
    requires
        run_wf(*plan, *options, old(run)@),
        old(run).phase == RunPhase::Recovering,
    ensures
        final(run)@ == run_step(*plan, *options, old(run)@, event),
        run_wf(*plan, *options, final(run)@),
{
    if let CraftEvent::Reply(reply) = event {
        let revision = run.state.as_ref().unwrap().revision;
        let mut newer = false;
        if let Ok(s) = &reply {
            newer = s.revision > revision;
        }
        if newer {
            if let Ok(s) = reply {
                run.result.recovered = true;
                run.result.final_revision = s.revision;
                run.result.cursor = s.cursor;
                run.result.grid = s.grid;
            }
        } else {
            let state = run.state.as_ref().unwrap();
            settle_from(&mut run.result, state);
        }
        run.phase = RunPhase::Done;
    }
}

/// How far a run is from its end, first part: over, recovering, or the
/// operations still to run.
pub open spec fn run_major(v: RunView) -> int {
    match v.phase {
        RunPhase::Done => 0,
        RunPhase::Recovering => 1,
        RunPhase::Opening => v.operations - v.done + 3,
        _ => v.operations - v.done + 2,
    }
}

/// How far a run is from its end, second part: the steps left in the
/// current operation.
pub open spec fn run_minor(plan: ResolvedCraftPlan, v: RunView) -> int {
    let l = plan.placements@.len() as int;
    match v.phase {
        RunPhase::Checking => 2 * l + 2,
        RunPhase::Placing(j) => 2 * l + 1 - 2 * j,
        RunPhase::Confirming(j) => 2 * l - 2 * j,
        RunPhase::Taking => 1,
        _ => 0,
    }
}

/// Whether `e` answers what a run in `v`'s phase asks.
pub open spec fn answers(v: RunView, e: CraftEvent) -> bool {
    match v.phase {
        RunPhase::Opening | RunPhase::Placing(_) | RunPhase::Taking | RunPhase::Recovering => e is Reply,
        RunPhase::Checking => e is Limits,
        RunPhase::Confirming(_) => e is Cancelled,
        RunPhase::Done => true,
    }
}

/// Every answer moves an unfinished run closer to its end.
pub proof fn lemma_step_progress(plan: ResolvedCraftPlan, options: CraftingOptions, v: RunView, e: CraftEvent)
    requires
        run_wf(plan, options, v),
        v.phase != RunPhase::Done,
        answers(v, e),
    ensures
        ({
            let n = run_step(plan, options, v, e);
            &&& run_major(n) >= 0
            &&& run_minor(plan, n) >= 0
            &&& run_major(n) < run_major(v) || (run_major(n) == run_major(v) && run_minor(plan, n) < run_minor(plan, v))
        }),
{
    let n = run_step(plan, options, v, e);
    let goal = run_major(n) < run_major(v) || (run_major(n) == run_major(v) && run_minor(plan, n) < run_minor(plan, v));
    match v.phase {
        RunPhase::Opening => {
            assert(goal);
        },
        RunPhase::Checking => {
            assert(goal);
        },
        RunPhase::Placing(j) => {
            assert(j < plan.placements@.len());
            assert(goal);
        },
        RunPhase::Confirming(j) => {
            let l = plan.placements@.len() as int;
            assert(j < l);
            assert(l <= v.operations * l) by (nonlinear_arith)
                requires
                    v.operations >= 1,
                    l >= 0,
            ;
            assert(j + 1 <= u32::MAX);
            assert(goal);
        },
        RunPhase::Taking => {
            assert(v.done < v.operations);
            assert(goal);
        },
        RunPhase::Recovering => {
            assert(goal);
        },
        RunPhase::Done => {},
    }
}

/// A run that is over stays over, whatever answers come.
pub proof fn lemma_done_stays(plan: ResolvedCraftPlan, options: CraftingOptions, v: RunView, events: Seq<CraftEvent>)
    requires
        v.phase == RunPhase::Done,
    ensures
        run_over(plan, options, v, events) == v,
    decreases events.len(),
{
    if events.len() > 0 {
        lemma_done_stays(plan, options, v, events.drop_last());
    }
}

/// A run whose checks on the start snapshot fail is over before it asks
/// anything: its first request is `Finished`, so no menu is opened and
/// nothing is placed or taken, and no answer changes it.
pub proof fn lemma_failed_checks_ask_nothing(plan: ResolvedCraftPlan, options: CraftingOptions, start: MenuSnapshot,
    v: RunView, events: Seq<CraftEvent>)
    requires
        run_begins(plan, options, start, v),
        !preflight_passes(plan, options, start),
    ensures
        run_request(plan, options, v) == CraftRequest::Finished,
        run_over(plan, options, v, events) == v,
{
    lemma_done_stays(plan, options, v, events);
}

/// Whether `e` is the answer that lets a run in `v` go on: an accepted
/// reply, the time not up and no stop asked for.
pub open spec fn accepted(plan: ResolvedCraftPlan, v: RunView, e: CraftEvent) -> bool {
    match v.phase {
        RunPhase::Opening => e matches CraftEvent::Reply(rep) && open_outcome(v.start_revision, v.wanted, rep) == StepOutcome::Accepted,
        RunPhase::Checking => e == (CraftEvent::Limits { timed_out: false, cancelled: false }),
        RunPhase::Placing(_) => e matches CraftEvent::Reply(rep) && placement_outcome(v.state->0.revision, rep) == StepOutcome::Accepted,
        RunPhase::Confirming(_) => e == CraftEvent::Cancelled(false),
        RunPhase::Taking => e matches CraftEvent::Reply(rep) && operation_outcome(plan, v.state->0, rep) == StepOutcome::Accepted,
        RunPhase::Recovering | RunPhase::Done => true,
    }
}

/// A run in which every answer is accepted ends `Completed`: once it is
/// over (or taking the grid back), every operation was counted.
pub proof fn lemma_accepted_run_completes(plan: ResolvedCraftPlan, options: CraftingOptions, start: MenuSnapshot,
    v: RunView, events: Seq<CraftEvent>)
    requires
        run_begins(plan, options, start, v),
        preflight_passes(plan, options, start),
        menu_request_for(plan, options) != MenuRequest::Refused,
        forall|i: int| 0 <= i < events.len() ==> accepted(plan, #[trigger] run_over(plan, options, v, events.take(i)), events[i]),
    ensures
        ({
            let n = run_over(plan, options, v, events);
            n.phase == RunPhase::Done || n.phase == RunPhase::Recovering ==> n.result.status == CraftStatus::Completed
        }),
    decreases events.len(),
{
    if events.len() > 0 {
        let k = events.len() - 1;
        assert forall|i: int| 0 <= i < events.drop_last().len() implies accepted(plan,
            #[trigger] run_over(plan, options, v, events.drop_last().take(i)), events.drop_last()[i]) by {
            assert(events.drop_last().take(i) =~= events.take(i));
            assert(accepted(plan, run_over(plan, options, v, events.take(i)), events[i]));
        }
        lemma_accepted_run_completes(plan, options, start, v, events.drop_last());
        assert(events.take(k) =~= events.drop_last());
        assert(accepted(plan, run_over(plan, options, v, events.take(k)), events[k]));
    }
}

} // verus!
