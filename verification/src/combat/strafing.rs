//! Which way to circle, and for how long: jittered intervals, occasional
//! one-interval pauses (never two running), and shorter intervals while a
//! combo is live. Durations are in milliseconds.
use vstd::prelude::*;
use crate::rng::{draw_value, next_state, percent_roll, SeededRng};

verus! {

/// Baseline hold time for one orbit direction, before jitter (ms).
pub const BASE_INTERVAL: u64 = 280;

/// The most extra time drawn on top of [`BASE_INTERVAL`] (ms).
pub const INTERVAL_JITTER: u64 = 150;

/// Hold time right after landing a hit (ms).
pub const COMBO_INTERVAL: u64 = 150;

/// Percent chance that a switch plants the feet for one interval.
pub const STILL_CHANCE_PERCENT: u64 = 30;

/// Which way the bot is circling this interval.
#[derive(Clone, Copy, Debug, Default, PartialEq, Eq, Structural)]
pub enum OrbitDirection {
    #[default]
    Left,
    Right,
    /// A deliberate pause: feet planted.
    Still,
}

impl OrbitDirection {
    /// Sign of the tangential steering component: +1, -1, or 0 while
    /// planted.
    pub fn sign(self) -> (s: i8)
        ensures
            s == (match self {
                OrbitDirection::Left => 1i8,
                OrbitDirection::Right => -1i8,
                OrbitDirection::Still => 0i8,
            }),
    {
        match self {
            OrbitDirection::Left => 1,
            OrbitDirection::Right => -1,
            OrbitDirection::Still => 0,
        }
    }

    /// Whether the bot is circling at all.
    pub fn is_circling(self) -> (r: bool)
        ensures
            r == (self != OrbitDirection::Still),
    {
        !matches!(self, OrbitDirection::Still)
    }

    /// The other way round; a pause resumes to the left.
    pub fn reversed(self) -> (r: Self)
        ensures
            r == reverse_of(self),
    {
        match self {
            OrbitDirection::Left => OrbitDirection::Right,
            OrbitDirection::Right => OrbitDirection::Left,
            OrbitDirection::Still => OrbitDirection::Left,
        }
    }
}

/// The reverse of a direction; a pause resumes to the left.
pub open spec fn reverse_of(d: OrbitDirection) -> OrbitDirection {
    match d {
        OrbitDirection::Left => OrbitDirection::Right,
        OrbitDirection::Right => OrbitDirection::Left,
        OrbitDirection::Still => OrbitDirection::Left,
    }
}

/// A hold time drawn from `state`: the base plus 0..=jitter.
pub open spec fn interval_from(state: u64) -> u64 {
    (BASE_INTERVAL + draw_value(state) % ((INTERVAL_JITTER + 1) as u64)) as u64
}

/// Orbit direction plus the timer that decides when it changes.
#[derive(Clone, Debug)]
pub struct StrafePlanner {
    direction: OrbitDirection,
    held: u64,
    interval: u64,
}

/// The abstract content of a [`StrafePlanner`].
pub struct StrafeModel {
    pub direction: OrbitDirection,
    /// Time accumulated on the current direction (ms).
    pub held: u64,
    /// How long the current direction is meant to last (ms).
    pub interval: u64,
}

impl View for StrafePlanner {
    type V = StrafeModel;

    closed spec fn view(&self) -> StrafeModel {
        StrafeModel { direction: self.direction, held: self.held, interval: self.interval }
    }
}

/// A hold time drawn around [`BASE_INTERVAL`], never shorter than it.
pub fn next_interval(rng: &mut SeededRng) -> (interval: u64)
    ensures
        interval == interval_from(old(rng).state),
        BASE_INTERVAL <= interval <= BASE_INTERVAL + INTERVAL_JITTER,
        final(rng).state == next_state(old(rng).state),
{
    BASE_INTERVAL + rng.below(INTERVAL_JITTER + 1)
}

/// One tick of the planner: `elapsed` ms more on the current direction,
/// saturating. Short of the interval the direction holds; otherwise a fresh
/// interval is drawn and the direction switches -- to a pause with
/// [`STILL_CHANCE_PERCENT`] chance when circling, otherwise to the reverse.
/// Returns the planner and the generator's state afterwards.
pub open spec fn strafe_step(m: StrafeModel, state: u64, elapsed: u64) -> (StrafeModel, u64) {
    let held = if m.held + elapsed > u64::MAX { u64::MAX as int } else { m.held + elapsed };
    if held < m.interval {
        (StrafeModel { held: held as u64, ..m }, state)
    } else {
        let s1 = next_state(state);
        let direction = if m.direction != OrbitDirection::Still && percent_roll(s1) < STILL_CHANCE_PERCENT {
            OrbitDirection::Still
        } else {
            reverse_of(m.direction)
        };
        (StrafeModel { direction, held: 0, interval: interval_from(state) },
            if m.direction != OrbitDirection::Still { next_state(s1) } else { s1 })
    }
}

/// The planner after one tick per entry of `ticks`, in order.
pub open spec fn strafe_run(m: StrafeModel, state: u64, ticks: Seq<u64>) -> (StrafeModel, u64)
    decreases ticks.len(),
{
    if ticks.len() == 0 {
        (m, state)
    } else {
        let (m1, s1) = strafe_run(m, state, ticks.drop_last());
        strafe_step(m1, s1, ticks.last())
    }
}

/// The sum of `ticks`.
pub open spec fn ticks_total(ticks: Seq<u64>) -> int
    decreases ticks.len(),
{
    if ticks.len() == 0 {
        0
    } else {
        ticks_total(ticks.drop_last()) + ticks.last()
    }
}

proof fn lemma_interval_bounds(state: u64)
    ensures
        BASE_INTERVAL <= interval_from(state) <= BASE_INTERVAL + INTERVAL_JITTER,
{
}

/// Over any run of ticks, each tick either keeps the direction (while the
/// time held stays short of the interval, adding the tick to it) or
/// switches it once the interval is reached: a pause always gives way to
/// circling left, so the bot never plants its feet two holds running, and
/// circling gives way to a pause or the other side; every new hold lasts
/// 280..=430 ms.
pub proof fn lemma_strafe_run(m: StrafeModel, state: u64, ticks: Seq<u64>, k: int)
    requires
        0 <= k < ticks.len(),
    ensures
        ({
            let (a, _) = strafe_run(m, state, ticks.take(k));
            let (b, _) = strafe_run(m, state, ticks.take(k + 1));
            &&& a.held + ticks[k] < a.interval ==> b == (StrafeModel { held: (a.held + ticks[k]) as u64, ..a })
            &&& b.direction != a.direction ==> a.held + ticks[k] >= a.interval && b.held == 0
                && BASE_INTERVAL <= b.interval <= BASE_INTERVAL + INTERVAL_JITTER
            &&& a.direction == OrbitDirection::Still && a.held + ticks[k] >= a.interval ==> b.direction == OrbitDirection::Left
            &&& a.direction != OrbitDirection::Still && a.held + ticks[k] >= a.interval
                ==> b.direction == OrbitDirection::Still || b.direction == reverse_of(a.direction)
            &&& a.held + ticks[k] >= a.interval ==> b.direction != a.direction
        }),
{
    assert(ticks.take(k + 1).drop_last() =~= ticks.take(k));
    assert(ticks.take(k + 1).last() == ticks[k]);
    let (a, s) = strafe_run(m, state, ticks.take(k));
    lemma_interval_bounds(s);
}

/// While the time held stays short of the interval, a run of ticks keeps
/// the direction, adds the ticks to the time held and draws nothing.
pub proof fn lemma_hold_until_interval(m: StrafeModel, state: u64, ticks: Seq<u64>)
    requires
        m.held + ticks_total(ticks) < m.interval,
    ensures
        strafe_run(m, state, ticks) == (StrafeModel { held: (m.held + ticks_total(ticks)) as u64, ..m }, state),
    decreases ticks.len(),
{
    if ticks.len() > 0 {
        lemma_total_nonneg(ticks.drop_last());
        lemma_hold_until_interval(m, state, ticks.drop_last());
    }
}

proof fn lemma_total_nonneg(ticks: Seq<u64>)
    ensures
        ticks_total(ticks) >= 0,
    decreases ticks.len(),
{
    if ticks.len() > 0 {
        lemma_total_nonneg(ticks.drop_last());
    }
}

/// After a landed hit ([`StrafePlanner::note_attack`]) the direction holds
/// while less than [`COMBO_INTERVAL`] has passed, and the tick that brings
/// the time to it switches the direction.
pub proof fn lemma_combo_interval_switches(m: StrafeModel, state: u64, ticks: Seq<u64>, last: u64)
    requires
        m.held == 0,
        m.interval == COMBO_INTERVAL,
        ticks_total(ticks) < COMBO_INTERVAL,
    ensures
        strafe_run(m, state, ticks).0.direction == m.direction,
        ticks_total(ticks) + last >= COMBO_INTERVAL ==> strafe_run(m, state, ticks.push(last)).0.direction != m.direction,
{
    lemma_hold_until_interval(m, state, ticks);
    assert(ticks.push(last).drop_last() =~= ticks);
}

/// The planner [`StrafePlanner::new`] gives: circling left, nothing held,
/// a base-length interval.
pub open spec fn initial_planner() -> StrafeModel {
    StrafeModel { direction: OrbitDirection::Left, held: 0, interval: BASE_INTERVAL }
}

/// Every planner reached from [`initial_planner`] holds an interval of
/// 280..=430 ms and has held its direction for less than it.
proof fn lemma_reached_bounds(state: u64, ticks: Seq<u64>)
    ensures
        ({
            let (a, _) = strafe_run(initial_planner(), state, ticks);
            BASE_INTERVAL <= a.interval <= BASE_INTERVAL + INTERVAL_JITTER && a.held < a.interval
        }),
    decreases ticks.len(),
{
    if ticks.len() > 0 {
        lemma_reached_bounds(state, ticks.drop_last());
        let (a, s) = strafe_run(initial_planner(), state, ticks.drop_last());
        lemma_interval_bounds(s);
    }
}

/// The strafing pattern of a planner fresh from [`StrafePlanner::new`],
/// driven by [`StrafePlanner::advance`] with the generator seeded at
/// `state` and the ticks `ticks` (its run is [`strafe_run`], so the same
/// seed and ticks give the same pattern). Before tick `k` the planner holds
/// an interval of 280..=430 ms (280 at first) and has held its direction
/// for less than it -- the ticks summed since the last change. Tick `k`
/// keeps the direction exactly while the time held stays short of the
/// interval; when it reaches it the direction changes, with nothing held
/// and a fresh 280..=430 ms interval: a pause always gives way to circling
/// left, so the bot never plants its feet two holds running, and circling
/// gives way to a pause or the other side.
pub proof fn lemma_strafe_pattern(state: u64, ticks: Seq<u64>, k: int)
    requires
        0 <= k < ticks.len(),
    ensures
        ({
            let (a, _) = strafe_run(initial_planner(), state, ticks.take(k));
            let (b, _) = strafe_run(initial_planner(), state, ticks.take(k + 1));
            &&& BASE_INTERVAL <= a.interval <= BASE_INTERVAL + INTERVAL_JITTER
            &&& a.held < a.interval
            &&& k == 0 ==> a == initial_planner()
            &&& (b.direction == a.direction) == (a.held + ticks[k] < a.interval)
            &&& b.direction == a.direction ==> b == (StrafeModel { held: (a.held + ticks[k]) as u64, ..a })
            &&& b.direction != a.direction ==> b.held == 0 && BASE_INTERVAL <= b.interval <= BASE_INTERVAL + INTERVAL_JITTER
            &&& a.direction == OrbitDirection::Still && b.direction != a.direction ==> b.direction == OrbitDirection::Left
            &&& a.direction != OrbitDirection::Still && b.direction != a.direction
                ==> b.direction == OrbitDirection::Still || b.direction == reverse_of(a.direction)
        }),
{
    lemma_reached_bounds(state, ticks.take(k));
    lemma_strafe_run(initial_planner(), state, ticks, k);
    if k == 0 {
        assert(ticks.take(0) =~= Seq::<u64>::empty());
    }
}

impl Default for StrafePlanner {
    fn default() -> (p: Self)
        ensures
            p@ == initial_planner(),
    {
        StrafePlanner::new()
    }
}

impl StrafePlanner {
    /// Circling left, nothing held, a base-length interval.
    pub fn new() -> (p: Self)
        ensures
            p@ == initial_planner(),
    {
        StrafePlanner { direction: OrbitDirection::Left, held: 0, interval: BASE_INTERVAL }
    }

    /// Restarts the pattern for a new fight: a coin-flip side (never
    /// planted), nothing held, a fresh interval.
    pub fn reset(&mut self, rng: &mut SeededRng)
        ensures
            final(self)@.direction == (if percent_roll(old(rng).state) < 50 {
                OrbitDirection::Left
            } else {
                OrbitDirection::Right
            }),
            final(self)@.held == 0,
            final(self)@.interval == interval_from(next_state(old(rng).state)),
            final(rng).state == next_state(next_state(old(rng).state)),
    {
        self.direction = if rng.chance_percent(50) {
            OrbitDirection::Left
        } else {
            OrbitDirection::Right
        };
        self.held = 0;
        self.interval = next_interval(rng);
    }

    /// Shortens the current interval because a hit just landed.
    pub fn note_attack(&mut self)
        ensures
            final(self)@ == (StrafeModel { held: 0, interval: COMBO_INTERVAL, ..old(self)@ }),
    {
        self.held = 0;
        self.interval = COMBO_INTERVAL;
    }

    /// Forces a switch on the next update regardless of the timer.
    pub fn force_switch(&mut self)
        ensures
            final(self)@ == (StrafeModel { held: old(self)@.interval, ..old(self)@ }),
    {
        self.held = self.interval;
    }

    /// Advances the timer by `elapsed` ms and returns the direction to orbit
    /// this tick. While the accumulated time is short of the interval the
    /// direction holds; once it reaches it, a fresh interval is drawn and the
    /// direction switches -- to a pause with [`STILL_CHANCE_PERCENT`] chance
    /// when circling, otherwise to the reverse. Never two pauses running
    /// ([`strafe_step`]).
    pub fn advance(&mut self, elapsed: u64, rng: &mut SeededRng) -> (direction: OrbitDirection)
        ensures
            (final(self)@, final(rng).state) == strafe_step(old(self)@, old(rng).state, elapsed),
            direction == final(self)@.direction,
    {
        self.held = self.held.saturating_add(elapsed);
        if self.held < self.interval {
            return self.direction;
        }
        self.held = 0;
        self.interval = next_interval(rng);
        self.direction = if self.direction.is_circling() && rng.chance_percent(STILL_CHANCE_PERCENT) {
            OrbitDirection::Still
        } else {
            self.direction.reversed()
        };
        self.direction
    }
}

} // verus!
