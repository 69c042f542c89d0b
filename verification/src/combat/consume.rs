//! The consume state machine: the six states a golden apple passes through
//! from "the bot decided to eat" to "the sword is back in its hand".
//!
//! Vanilla item use is fragile: attacking, sprinting, selecting a hotbar
//! slot, raising a shield or clicking in the inventory all cancel it, so a
//! bite is an atomic action and every subsystem can ask whether one is in
//! progress. Every non-terminal state carries a deadline, so the machine
//! cannot hold an apple forever.
//!
//! ```text
//! Idle -> Preparing -> WaitingForSlotAck -> Using -> Consumed
//!      -> RestoringWeapon -> Idle
//! ```
//!
//! Time is a monotonic clock reading in milliseconds, handed in by the
//! caller; durations are milliseconds too.
use vstd::prelude::*;

verus! {

/// Milliseconds to wait for the server to acknowledge the hotbar slot.
pub const SLOT_ACK_TIMEOUT: u64 = 500;

/// Milliseconds to wait for a started bite to consume something.
pub const USE_TIMEOUT: u64 = 2200;

/// Milliseconds allowed for the weapon-restore step.
pub const RESTORE_TIMEOUT: u64 = 600;

/// Where a consume attempt currently is.
#[derive(Clone, Copy, Debug, PartialEq, Eq, Structural)]
pub enum ConsumeState {
    Idle,
    /// Food chosen, hand being cleared and the slot selected.
    Preparing,
    /// Slot selected; waiting for the server to confirm it.
    WaitingForSlotAck,
    /// Use-item sent; the bite is in flight.
    Using,
    /// The stack shrank: the bite landed.
    Consumed,
    /// Putting the weapon back before combat resumes.
    RestoringWeapon,
}

/// Whether combat actions must wait in state `s`.
pub open spec fn state_blocks_combat(s: ConsumeState) -> bool {
    s == ConsumeState::Preparing || s == ConsumeState::WaitingForSlotAck || s == ConsumeState::Using
        || s == ConsumeState::Consumed
}

/// Whether the hand is committed to the consume in state `s`.
pub open spec fn state_holds_hand(s: ConsumeState) -> bool {
    s != ConsumeState::Idle
}

impl ConsumeState {
    /// Whether a consume attempt is in progress at all.
    pub fn is_active(self) -> (r: bool)
        ensures
            r == state_holds_hand(self),
    {
        !matches!(self, ConsumeState::Idle)
    }

    /// Whether combat actions must be suppressed: from the moment food is
    /// chosen until the bite has landed, but not while the weapon is being
    /// put back (that restore is itself a weapon swap).
    pub fn blocks_combat(self) -> (r: bool)
        ensures
            r == state_blocks_combat(self),
    {
        matches!(
            self,
            ConsumeState::Preparing | ConsumeState::WaitingForSlotAck | ConsumeState::Using
                | ConsumeState::Consumed
        )
    }

    /// Whether the hand is committed to food, the restore included.
    pub fn holds_hand(self) -> (r: bool)
        ensures
            r == state_holds_hand(self),
    {
        self.is_active()
    }
}

/// Why an attempt was abandoned.
#[derive(Clone, Copy, Debug, PartialEq, Eq, Structural)]
pub enum ConsumeFailure {
    /// The server never confirmed the hotbar slot.
    SlotNotAcknowledged,
    /// Use-item was sent but nothing was ever consumed.
    Interrupted,
    /// The weapon restore didn't complete in time.
    RestoreStalled,
}

impl ConsumeFailure {
    /// A short description for logging.
    pub fn label(self) -> (s: &'static str)
        ensures
            self == ConsumeFailure::SlotNotAcknowledged ==> s@ == "hotbar slot never acknowledged"@,
            self == ConsumeFailure::Interrupted ==> s@ == "use interrupted"@,
            self == ConsumeFailure::RestoreStalled ==> s@ == "weapon restore stalled"@,
    {
        match self {
            ConsumeFailure::SlotNotAcknowledged => "hotbar slot never acknowledged",
            ConsumeFailure::Interrupted => "use interrupted",
            ConsumeFailure::RestoreStalled => "weapon restore stalled",
        }
    }
}

/// What the driver should do after [`ConsumeMachine::advance`].
#[derive(Clone, Debug, PartialEq, Eq, Structural)]
pub enum ConsumeAction {
    /// Nothing to do this tick.
    Wait,
    /// Select `hotbar_index` and move to `WaitingForSlotAck`.
    SelectSlot { hotbar_index: u8 },
    /// The slot is confirmed: send use-item once.
    StartUse,
    /// The bite landed; put the weapon back.
    RestoreWeapon,
    /// This attempt is over. `retry_in` (milliseconds) is `Some` when
    /// another attempt is due after that delay, `None` when the retry
    /// budget is spent.
    Failed { reason: ConsumeFailure, retry_in: Option<u64> },
    /// Fully finished -- back to `Idle`, combat resumes.
    Finished,
}

/// Limits on how hard the machine tries.
#[derive(Clone, Copy, Debug)]
pub struct ConsumeLimits {
    /// Attempts allowed for one decision to eat, including the first.
    pub retry_limit: u32,
    /// Milliseconds between a failed attempt and the next.
    pub retry_delay: u64,
}

impl Default for ConsumeLimits {
    fn default() -> (l: Self)
        ensures
            l.retry_limit == 3,
            l.retry_delay == 150,
    {
        ConsumeLimits { retry_limit: 3, retry_delay: 150 }
    }
}

/// What the world says right now, as far as the machine cares.
#[derive(Clone, Copy, Debug)]
pub struct ConsumeObservation {
    /// The hotbar slot the server has been told is held, if known.
    pub acknowledged_slot: Option<u8>,
    /// How many of the food item the bot is holding.
    pub held_count: u32,
    /// Whether the weapon is back in hand (ends `RestoringWeapon`).
    pub weapon_restored: bool,
    /// The clock, in milliseconds.
    pub now: u64,
}

/// The abstract content of a [`ConsumeMachine`].
pub struct ConsumeModel {
    pub state: ConsumeState,
    pub item_id: Option<Seq<char>>,
    pub hotbar_index: u8,
    pub count_at_start: u32,
    pub since: u64,
    pub attempts: u32,
    pub retry_after: Option<u64>,
}

/// One consume attempt, start to finish.
#[derive(Clone, Debug)]
pub struct ConsumeMachine {
    state: ConsumeState,
    item_id: Option<String>,
    hotbar_index: u8,
    count_at_start: u32,
    since: u64,
    attempts: u32,
    retry_after: Option<u64>,
}

impl View for ConsumeMachine {
    type V = ConsumeModel;

    closed spec fn view(&self) -> ConsumeModel {
        ConsumeModel {
            state: self.state,
            item_id: match self.item_id {
                Some(s) => Some(s@),
                None => None,
            },
            hotbar_index: self.hotbar_index,
            count_at_start: self.count_at_start,
            since: self.since,
            attempts: self.attempts,
            retry_after: self.retry_after,
        }
    }
}

/// Milliseconds from `since` to `now`, zero if the clock reads earlier.
pub open spec fn elapsed(now: u64, since: u64) -> int {
    if now >= since {
        now - since
    } else {
        0
    }
}

/// Whether an attempt may start at `now`.
pub open spec fn ready_at(m: ConsumeModel, now: u64) -> bool {
    m.state == ConsumeState::Idle && match m.retry_after {
        None => true,
        Some(after) => now >= after,
    }
}

/// The machine and action after abandoning an attempt at `now`.
pub open spec fn fail_step(m: ConsumeModel, reason: ConsumeFailure, now: u64, limits: ConsumeLimits) -> (ConsumeModel, ConsumeAction) {
    let exhausted = m.attempts >= limits.retry_limit;
    (
        ConsumeModel {
            state: ConsumeState::Idle,
            item_id: None,
            since: now,
            retry_after: if exhausted { None } else { Some((now + limits.retry_delay) as u64) },
            ..m
        },
        ConsumeAction::Failed {
            reason,
            retry_in: if exhausted { None } else { Some(limits.retry_delay) },
        },
    )
}

/// The machine after a finished attempt at `now`: idle, budget cleared.
pub open spec fn finish_model(m: ConsumeModel, now: u64) -> ConsumeModel {
    ConsumeModel { state: ConsumeState::Idle, item_id: None, since: now, attempts: 0, retry_after: None, ..m }
}

/// The machine after [`ConsumeMachine::reset`] at `now`.
pub open spec fn reset_model(m: ConsumeModel, now: u64) -> ConsumeModel {
    ConsumeModel {
        state: ConsumeState::Idle,
        item_id: None,
        count_at_start: 0,
        since: now,
        attempts: 0,
        retry_after: None,
        ..m
    }
}

/// Whether the observation shows none of the progress the current state is
/// waiting for.
pub open spec fn no_progress(m: ConsumeModel, obs: ConsumeObservation) -> bool {
    &&& obs.acknowledged_slot != Some(m.hotbar_index)
    &&& obs.held_count >= m.count_at_start
    &&& !obs.weapon_restored
}

/// One step of the machine against an observation.
pub open spec fn consume_step(m: ConsumeModel, obs: ConsumeObservation, limits: ConsumeLimits) -> (ConsumeModel, ConsumeAction) {
    let waited = elapsed(obs.now, m.since);
    match m.state {
        ConsumeState::Idle => (m, ConsumeAction::Wait),
        ConsumeState::Preparing => (m, ConsumeAction::SelectSlot { hotbar_index: m.hotbar_index }),
        ConsumeState::WaitingForSlotAck => if obs.acknowledged_slot == Some(m.hotbar_index) {
            (m, ConsumeAction::StartUse)
        } else if waited >= SLOT_ACK_TIMEOUT {
            fail_step(m, ConsumeFailure::SlotNotAcknowledged, obs.now, limits)
        } else {
            (m, ConsumeAction::Wait)
        },
        ConsumeState::Using => if obs.held_count < m.count_at_start {
            (ConsumeModel { state: ConsumeState::Consumed, since: obs.now, ..m }, ConsumeAction::RestoreWeapon)
        } else if waited >= USE_TIMEOUT {
            fail_step(m, ConsumeFailure::Interrupted, obs.now, limits)
        } else {
            (m, ConsumeAction::Wait)
        },
        ConsumeState::Consumed => (m, ConsumeAction::RestoreWeapon),
        ConsumeState::RestoringWeapon => if obs.weapon_restored {
            (finish_model(m, obs.now), ConsumeAction::Finished)
        } else if waited >= RESTORE_TIMEOUT {
            (
                finish_model(m, obs.now),
                ConsumeAction::Failed { reason: ConsumeFailure::RestoreStalled, retry_in: None },
            )
        } else {
            (m, ConsumeAction::Wait)
        },
    }
}

impl ConsumeMachine {
    /// An idle machine with a full retry budget.
    pub fn new(now: u64) -> (m: Self)
        ensures
            m@.state == ConsumeState::Idle,
            m@.item_id is None,
            m@.hotbar_index == 0,
            m@.count_at_start == 0,
            m@.since == now,
            m@.attempts == 0,
            m@.retry_after is None,
    {
        ConsumeMachine {
            state: ConsumeState::Idle,
            item_id: None,
            hotbar_index: 0,
            count_at_start: 0,
            since: now,
            attempts: 0,
            retry_after: None,
        }
    }

    /// The current state.
    pub fn state(&self) -> (s: ConsumeState)
        ensures
            s == self@.state,
    {
        self.state
    }

    /// The food this attempt is eating.
    pub fn item_id(&self) -> (id: Option<&str>)
        ensures
            id is Some <==> self@.item_id is Some,
            id is Some ==> id->0@ == self@.item_id->0,
    {
        match &self.item_id {
            Some(s) => Some(s.as_str()),
            None => None,
        }
    }

    /// Attempts made for the current decision to eat.
    pub fn attempts(&self) -> (n: u32)
        ensures
            n == self@.attempts,
    {
        self.attempts
    }

    /// Whether another attempt may start at `now`, given the retry pause.
    pub fn ready_to_start(&self, now: u64) -> (r: bool)
        ensures
            r == ready_at(self@, now),
    {
        self.state == ConsumeState::Idle && match self.retry_after {
            None => true,
            Some(after) => now >= after,
        }
    }

    /// Forgets everything, including the retry budget.
    pub fn reset(&mut self, now: u64)
        ensures
            final(self)@ == reset_model(old(self)@, now),
    {
        self.state = ConsumeState::Idle;
        self.item_id = None;
        self.count_at_start = 0;
        self.since = now;
        self.attempts = 0;
        self.retry_after = None;
    }

    /// Begins an attempt on `item_id`, held in `hotbar_index`.
    pub fn begin(&mut self, item_id: String, hotbar_index: u8, held_count: u32, now: u64)
        requires
            old(self)@.attempts < u32::MAX,
        ensures
            final(self)@ == (ConsumeModel {
                state: ConsumeState::Preparing,
                item_id: Some(item_id@),
                hotbar_index,
                count_at_start: held_count,
                since: now,
                attempts: (old(self)@.attempts + 1) as u32,
                retry_after: None,
            }),
    {
        self.state = ConsumeState::Preparing;
        self.item_id = Some(item_id);
        self.hotbar_index = hotbar_index;
        self.count_at_start = held_count;
        self.since = now;
        self.attempts = self.attempts + 1;
        self.retry_after = None;
    }

    /// Records that the caller has sent the slot selection; ignored unless
    /// the machine is `Preparing`.
    pub fn slot_selected(&mut self, now: u64)
        ensures
            old(self)@.state == ConsumeState::Preparing ==> final(self)@ == (ConsumeModel {
                state: ConsumeState::WaitingForSlotAck,
                since: now,
                ..old(self)@
            }),
            old(self)@.state != ConsumeState::Preparing ==> final(self)@ == old(self)@,
    {
        if self.state == ConsumeState::Preparing {
            self.state = ConsumeState::WaitingForSlotAck;
            self.since = now;
        }
    }

    /// Records that the caller has sent use-item; ignored unless the
    /// machine is `WaitingForSlotAck`.
    pub fn use_started(&mut self, held_count: u32, now: u64)
        ensures
            old(self)@.state == ConsumeState::WaitingForSlotAck ==> final(self)@ == (ConsumeModel {
                state: ConsumeState::Using,
                count_at_start: held_count,
                since: now,
                ..old(self)@
            }),
            old(self)@.state != ConsumeState::WaitingForSlotAck ==> final(self)@ == old(self)@,
    {
        if self.state == ConsumeState::WaitingForSlotAck {
            self.state = ConsumeState::Using;
            self.count_at_start = held_count;
            self.since = now;
        }
    }

    /// Records that the caller has asked for the weapon back; ignored
    /// unless the machine is `Consumed`.
    pub fn restore_started(&mut self, now: u64)
        ensures
            old(self)@.state == ConsumeState::Consumed ==> final(self)@ == (ConsumeModel {
                state: ConsumeState::RestoringWeapon,
                since: now,
                ..old(self)@
            }),
            old(self)@.state != ConsumeState::Consumed ==> final(self)@ == old(self)@,
    {
        if self.state == ConsumeState::Consumed {
            self.state = ConsumeState::RestoringWeapon;
            self.since = now;
        }
    }

    /// Advances the machine against what the world currently reports, and
    /// says what the driver should do next.
    pub fn advance(&mut self, observation: ConsumeObservation, limits: &ConsumeLimits) -> (action: ConsumeAction)
        requires
            observation.now + limits.retry_delay <= u64::MAX,
        ensures
            (final(self)@, action) == consume_step(old(self)@, observation, *limits),
    {
        let elapsed: u64 = if observation.now >= self.since { observation.now - self.since } else { 0 };
        match self.state {
            ConsumeState::Idle => ConsumeAction::Wait,
            ConsumeState::Preparing => ConsumeAction::SelectSlot { hotbar_index: self.hotbar_index },
            ConsumeState::WaitingForSlotAck => {
                if observation.acknowledged_slot == Some(self.hotbar_index) {
                    return ConsumeAction::StartUse;
                }
                if elapsed >= SLOT_ACK_TIMEOUT {
                    return self.fail(ConsumeFailure::SlotNotAcknowledged, observation.now, limits);
                }
                ConsumeAction::Wait
            },
            ConsumeState::Using => {
                if observation.held_count < self.count_at_start {
                    self.state = ConsumeState::Consumed;
                    self.since = observation.now;
                    return ConsumeAction::RestoreWeapon;
                }
                if elapsed >= USE_TIMEOUT {
                    return self.fail(ConsumeFailure::Interrupted, observation.now, limits);
                }
                ConsumeAction::Wait
            },
            ConsumeState::Consumed => ConsumeAction::RestoreWeapon,
            ConsumeState::RestoringWeapon => {
                if observation.weapon_restored {
                    self.finish(observation.now);
                    return ConsumeAction::Finished;
                }
                if elapsed >= RESTORE_TIMEOUT {
                    self.finish(observation.now);
                    return ConsumeAction::Failed { reason: ConsumeFailure::RestoreStalled, retry_in: None };
                }
                ConsumeAction::Wait
            },
        }
    }

    /// Abandons the current attempt, scheduling a retry if the budget
    /// allows.
    pub fn fail(&mut self, reason: ConsumeFailure, now: u64, limits: &ConsumeLimits) -> (action: ConsumeAction)
        requires
            now + limits.retry_delay <= u64::MAX,
        ensures
            (final(self)@, action) == fail_step(old(self)@, reason, now, *limits),
    {
        let exhausted = self.attempts >= limits.retry_limit;
        self.state = ConsumeState::Idle;
        self.item_id = None;
        self.since = now;
        self.retry_after = if exhausted { None } else { Some(now + limits.retry_delay) };
        ConsumeAction::Failed {
            reason,
            retry_in: if exhausted { None } else { Some(limits.retry_delay) },
        }
    }

    fn finish(&mut self, now: u64)
        ensures
            final(self)@ == finish_model(old(self)@, now),
    {
        self.state = ConsumeState::Idle;
        self.item_id = None;
        self.since = now;
        self.attempts = 0;
        self.retry_after = None;
    }
}

/// Every state that blocks combat also holds the hand; the weapon restore
/// holds the hand without blocking combat.
pub proof fn lemma_blocking_implies_holding(s: ConsumeState)
    ensures
        state_blocks_combat(s) ==> state_holds_hand(s),
        s == ConsumeState::RestoringWeapon ==> state_holds_hand(s) && !state_blocks_combat(s),
{
}

/// No waiting state outlives its deadline: once the longest timeout has
/// passed without the awaited progress, one step returns the machine to
/// `Idle` with a failure, releasing the hand.
pub proof fn lemma_no_state_outlives_its_deadline(m: ConsumeModel, obs: ConsumeObservation, limits: ConsumeLimits)
    requires
        m.state == ConsumeState::WaitingForSlotAck || m.state == ConsumeState::Using
            || m.state == ConsumeState::RestoringWeapon,
        no_progress(m, obs),
        obs.now >= m.since + USE_TIMEOUT,
    ensures
        consume_step(m, obs, limits).0.state == ConsumeState::Idle,
        consume_step(m, obs, limits).1 is Failed,
{
}

/// A failed attempt always leaves the machine idle: the hand is never
/// locked by a failure.
pub proof fn lemma_failure_releases_the_hand(m: ConsumeModel, obs: ConsumeObservation, limits: ConsumeLimits)
    ensures
        consume_step(m, obs, limits).1 is Failed ==> consume_step(m, obs, limits).0.state == ConsumeState::Idle,
        consume_step(m, obs, limits).1 is Finished ==> consume_step(m, obs, limits).0.state == ConsumeState::Idle,
{
}

/// The retry budget is finite: a failure within the budget schedules a
/// retry exactly `retry_delay` later and forbids starting before it; a
/// failure once `retry_limit` attempts were made schedules none, and the
/// machine may start again at once (exhausted is not stuck).
pub proof fn lemma_retry_budget(m: ConsumeModel, reason: ConsumeFailure, now: u64, limits: ConsumeLimits, later: u64)
    requires
        now + limits.retry_delay <= u64::MAX,
    ensures
        m.attempts < limits.retry_limit ==> {
            &&& fail_step(m, reason, now, limits).1 == (ConsumeAction::Failed { reason, retry_in: Some(limits.retry_delay) })
            &&& (later < now + limits.retry_delay ==> !ready_at(fail_step(m, reason, now, limits).0, later))
            &&& (later >= now + limits.retry_delay ==> ready_at(fail_step(m, reason, now, limits).0, later))
        },
        m.attempts >= limits.retry_limit ==> {
            &&& fail_step(m, reason, now, limits).1 == (ConsumeAction::Failed { reason, retry_in: None })
            &&& ready_at(fail_step(m, reason, now, limits).0, later)
        },
{
}

/// A finished consume clears the retry budget, so the next time the bot
/// is low it counts attempts from scratch and may start at once.
pub proof fn lemma_success_clears_the_budget(m: ConsumeModel, obs: ConsumeObservation, limits: ConsumeLimits, later: u64)
    requires
        consume_step(m, obs, limits).1 is Finished,
    ensures
        consume_step(m, obs, limits).0.attempts == 0,
        ready_at(consume_step(m, obs, limits).0, later),
{
}

/// Withdrawing the decision to eat clears everything: after a reset the
/// machine is idle, blocks nothing, carries no retry penalty and has a
/// full budget.
pub proof fn lemma_reset_is_a_clean_slate(m: ConsumeModel, now: u64, later: u64)
    ensures
        reset_model(m, now).state == ConsumeState::Idle,
        reset_model(m, now).attempts == 0,
        ready_at(reset_model(m, now), later),
{
}

} // verus!
