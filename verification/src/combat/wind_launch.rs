//! The Wind Charge self-launch state machine: throw a Wind Charge straight
//! down at the bot's own feet, wait for the knockback to actually launch
//! it, then hand off to the Mace's smash handling for the fall.
//!
//! ```text
//! Idle -> Preparing -> WaitingForSlotAck -> AimingDown -> WaitingForLaunch -> Idle
//! ```
//!
//! Every step waits for something observable (a hotbar ack, the camera
//! reaching a steep pitch, the vertical velocity spiking upward) and every
//! wait is bounded. Time is a millisecond clock reading handed in by the
//! caller; the vertical velocity is in thousandths of a block per tick.
use vstd::prelude::*;
use crate::combat::eating::COMBAT_WIND_CHARGE_HOTBAR_INDEX;

verus! {

/// The item this machine throws.
pub const WIND_CHARGE_ITEM_ID: &'static str = "minecraft:wind_charge";

/// How steep the camera pitch must be (degrees, 90 is straight down)
/// before the throw is sent.
pub const AIM_DOWN_PITCH_THRESHOLD: u32 = 80;

/// Milliseconds to wait for the server to acknowledge the hotbar slot.
pub const SLOT_ACK_TIMEOUT: u64 = 500;

/// Milliseconds to wait for the camera to reach the aim-down pitch.
pub const AIM_TIMEOUT: u64 = 700;

/// Milliseconds to wait, after the throw, for the knockback to lift the bot.
pub const LAUNCH_TIMEOUT: u64 = 1000;

/// Minimum upward vertical velocity, in thousandths of a block per tick,
/// that counts as a launch -- comfortably above a normal jump's peak
/// (about 420).
pub const LAUNCH_VELOCITY_THRESHOLD: i64 = 600;

/// Milliseconds after a finished attempt (either way) before another may
/// begin.
pub const ATTEMPT_COOLDOWN: u64 = 3000;

/// Where a self-launch attempt currently is.
#[derive(Clone, Copy, Debug, PartialEq, Eq, Structural)]
pub enum WindLaunchState {
    Idle,
    /// Wind Charge chosen; the slot being selected.
    Preparing,
    /// Slot selected; waiting for the server to confirm that the held
    /// slot is the reserved Wind Charge slot (anything sent before acts on
    /// the previous item).
    WaitingForSlotAck,
    /// Aiming the camera straight down.
    AimingDown,
    /// Use-item sent; waiting for the knockback to lift the bot.
    WaitingForLaunch,
}

impl WindLaunchState {
    /// Whether a self-launch attempt is in progress at all.
    pub fn is_active(self) -> (r: bool)
        ensures
            r == (self != WindLaunchState::Idle),
    {
        !matches!(self, WindLaunchState::Idle)
    }
}

/// Why an attempt was abandoned.
#[derive(Clone, Copy, Debug, PartialEq, Eq, Structural)]
pub enum WindLaunchFailure {
    /// The server never confirmed the Wind Charge's hotbar slot.
    SlotNotAcknowledged,
    /// The camera never reached the aim-down pitch in time.
    AimNeverSettled,
    /// Use-item was sent but no launch was ever observed.
    NeverLaunched,
}

impl WindLaunchFailure {
    /// A short description for logging.
    pub fn label(self) -> (s: &'static str)
        ensures
            self == WindLaunchFailure::SlotNotAcknowledged ==> s@ == "hotbar slot never acknowledged"@,
            self == WindLaunchFailure::AimNeverSettled ==> s@ == "camera never settled facing down"@,
            self == WindLaunchFailure::NeverLaunched ==> s@ == "no launch detected"@,
    {
        match self {
            WindLaunchFailure::SlotNotAcknowledged => "hotbar slot never acknowledged",
            WindLaunchFailure::AimNeverSettled => "camera never settled facing down",
            WindLaunchFailure::NeverLaunched => "no launch detected",
        }
    }
}

/// What the driver should do after [`WindLaunchMachine::advance`].
#[derive(Clone, Copy, Debug, PartialEq, Eq, Structural)]
pub enum WindLaunchAction {
    /// Nothing to do this tick.
    Wait,
    /// Select the reserved Wind Charge hotbar slot
    /// ([`COMBAT_WIND_CHARGE_HOTBAR_INDEX`]).
    SelectSlot,
    /// The server confirms that slot is held: command the camera straight
    /// down.
    AimDown,
    /// The camera is pointed down: send use-item once.
    Throw,
    /// The bot is airborne; equip the Mace.
    Launched,
    /// This attempt is over without a launch; another may start after
    /// `retry_in` milliseconds.
    Failed { reason: WindLaunchFailure, retry_in: u64 },
}

/// What the world says right now, as far as the machine cares.
#[derive(Clone, Copy, Debug)]
pub struct WindLaunchObservation {
    /// The hotbar slot the server has been told is held, if known.
    pub acknowledged_slot: Option<u8>,
    /// Whether the camera is pointed down past the aim-down threshold.
    pub aim_settled: bool,
    pub on_ground: bool,
    /// Vertical velocity in thousandths of a block per tick, positive while
    /// rising.
    pub velocity_y_milli: i64,
    /// The clock, in milliseconds.
    pub now: u64,
}

/// The abstract content of a [`WindLaunchMachine`].
pub struct WindLaunchModel {
    pub state: WindLaunchState,
    pub since: u64,
    pub next_attempt_after: Option<u64>,
}

/// One self-launch attempt, start to finish.
#[derive(Clone, Debug)]
pub struct WindLaunchMachine {
    state: WindLaunchState,
    since: u64,
    next_attempt_after: Option<u64>,
}

impl View for WindLaunchMachine {
    type V = WindLaunchModel;

    closed spec fn view(&self) -> WindLaunchModel {
        WindLaunchModel { state: self.state, since: self.since, next_attempt_after: self.next_attempt_after }
    }
}

/// Milliseconds from `since` to `now`, zero if the clock reads earlier.
pub open spec fn waited(now: u64, since: u64) -> int {
    if now >= since {
        now - since
    } else {
        0
    }
}

/// Whether an attempt may start at `now`.
pub open spec fn launch_ready_at(m: WindLaunchModel, now: u64) -> bool {
    m.state == WindLaunchState::Idle && match m.next_attempt_after {
        None => true,
        Some(after) => now >= after,
    }
}

/// The machine after an attempt ends at `now`, either way.
pub open spec fn cooled_down(now: u64) -> WindLaunchModel {
    WindLaunchModel {
        state: WindLaunchState::Idle,
        since: now,
        next_attempt_after: Some((now + ATTEMPT_COOLDOWN) as u64),
    }
}

/// Whether the observation shows a launch: airborne and rising fast.
pub open spec fn launched(obs: WindLaunchObservation) -> bool {
    !obs.on_ground && obs.velocity_y_milli >= LAUNCH_VELOCITY_THRESHOLD
}

/// One step of the machine against an observation.
pub open spec fn launch_step(m: WindLaunchModel, obs: WindLaunchObservation) -> (WindLaunchModel, WindLaunchAction) {
    let w = waited(obs.now, m.since);
    match m.state {
        WindLaunchState::Idle => (m, WindLaunchAction::Wait),
        WindLaunchState::Preparing => (m, WindLaunchAction::SelectSlot),
        WindLaunchState::WaitingForSlotAck => if obs.acknowledged_slot == Some(COMBAT_WIND_CHARGE_HOTBAR_INDEX) {
            (m, WindLaunchAction::AimDown)
        } else if w >= SLOT_ACK_TIMEOUT {
            (cooled_down(obs.now), WindLaunchAction::Failed {
                reason: WindLaunchFailure::SlotNotAcknowledged,
                retry_in: ATTEMPT_COOLDOWN,
            })
        } else {
            (m, WindLaunchAction::Wait)
        },
        WindLaunchState::AimingDown => if obs.aim_settled {
            (m, WindLaunchAction::Throw)
        } else if w >= AIM_TIMEOUT {
            (cooled_down(obs.now), WindLaunchAction::Failed {
                reason: WindLaunchFailure::AimNeverSettled,
                retry_in: ATTEMPT_COOLDOWN,
            })
        } else {
            (m, WindLaunchAction::Wait)
        },
        WindLaunchState::WaitingForLaunch => if launched(obs) {
            (cooled_down(obs.now), WindLaunchAction::Launched)
        } else if w >= LAUNCH_TIMEOUT {
            (cooled_down(obs.now), WindLaunchAction::Failed {
                reason: WindLaunchFailure::NeverLaunched,
                retry_in: ATTEMPT_COOLDOWN,
            })
        } else {
            (m, WindLaunchAction::Wait)
        },
    }
}

impl WindLaunchMachine {
    /// An idle machine with no cooldown pending.
    pub fn new(now: u64) -> (m: Self)
        ensures
            m@ == (WindLaunchModel { state: WindLaunchState::Idle, since: now, next_attempt_after: None }),
    {
        WindLaunchMachine { state: WindLaunchState::Idle, since: now, next_attempt_after: None }
    }

    /// The current state.
    pub fn state(&self) -> (s: WindLaunchState)
        ensures
            s == self@.state,
    {
        self.state
    }

    /// Whether a new attempt may start at `now`, given the cooldown.
    pub fn ready_to_start(&self, now: u64) -> (r: bool)
        ensures
            r == launch_ready_at(self@, now),
    {
        self.state == WindLaunchState::Idle && match self.next_attempt_after {
            None => true,
            Some(after) => now >= after,
        }
    }

    /// Forgets everything, including the cooldown.
    pub fn reset(&mut self, now: u64)
        ensures
            final(self)@ == (WindLaunchModel { state: WindLaunchState::Idle, since: now, next_attempt_after: None }),
    {
        self.state = WindLaunchState::Idle;
        self.since = now;
        self.next_attempt_after = None;
    }

    /// Begins a new attempt; the caller has already put the Wind Charge in
    /// its reserved slot.
    pub fn begin(&mut self, now: u64)
        ensures
            final(self)@ == (WindLaunchModel { state: WindLaunchState::Preparing, since: now, ..old(self)@ }),
    {
        self.state = WindLaunchState::Preparing;
        self.since = now;
    }

    /// Records that the caller has sent the slot selection; ignored unless
    /// `Preparing`.
    pub fn slot_selected(&mut self, now: u64)
        ensures
            old(self)@.state == WindLaunchState::Preparing ==> final(self)@ == (WindLaunchModel {
                state: WindLaunchState::WaitingForSlotAck,
                since: now,
                ..old(self)@
            }),
            old(self)@.state != WindLaunchState::Preparing ==> final(self)@ == old(self)@,
    {
        if self.state == WindLaunchState::Preparing {
            self.state = WindLaunchState::WaitingForSlotAck;
            self.since = now;
        }
    }

    /// Records that the caller has commanded the aim-down look; ignored
    /// unless `WaitingForSlotAck`.
    pub fn aim_started(&mut self, now: u64)
        ensures
            old(self)@.state == WindLaunchState::WaitingForSlotAck ==> final(self)@ == (WindLaunchModel {
                state: WindLaunchState::AimingDown,
                since: now,
                ..old(self)@
            }),
            old(self)@.state != WindLaunchState::WaitingForSlotAck ==> final(self)@ == old(self)@,
    {
        if self.state == WindLaunchState::WaitingForSlotAck {
            self.state = WindLaunchState::AimingDown;
            self.since = now;
        }
    }

    /// Records that the caller has sent use-item; ignored unless
    /// `AimingDown`.
    pub fn thrown(&mut self, now: u64)
        ensures
            old(self)@.state == WindLaunchState::AimingDown ==> final(self)@ == (WindLaunchModel {
                state: WindLaunchState::WaitingForLaunch,
                since: now,
                ..old(self)@
            }),
            old(self)@.state != WindLaunchState::AimingDown ==> final(self)@ == old(self)@,
    {
        if self.state == WindLaunchState::AimingDown {
            self.state = WindLaunchState::WaitingForLaunch;
            self.since = now;
        }
    }

    /// Advances the machine against what the world currently reports, and
    /// says what the driver should do next.
    pub fn advance(&mut self, observation: WindLaunchObservation) -> (action: WindLaunchAction)
        requires
            observation.now + ATTEMPT_COOLDOWN <= u64::MAX,
        ensures
            (final(self)@, action) == launch_step(old(self)@, observation),
    {
        let elapsed: u64 = if observation.now >= self.since { observation.now - self.since } else { 0 };
        match self.state {
            WindLaunchState::Idle => WindLaunchAction::Wait,
            WindLaunchState::Preparing => WindLaunchAction::SelectSlot,
            WindLaunchState::WaitingForSlotAck => {
                let confirmed = match observation.acknowledged_slot {
                    Some(slot) => slot == COMBAT_WIND_CHARGE_HOTBAR_INDEX,
                    None => false,
                };
                if confirmed {
                    return WindLaunchAction::AimDown;
                }
                if elapsed >= SLOT_ACK_TIMEOUT {
                    return self.fail(WindLaunchFailure::SlotNotAcknowledged, observation.now);
                }
                WindLaunchAction::Wait
            },
            WindLaunchState::AimingDown => {
                if observation.aim_settled {
                    return WindLaunchAction::Throw;
                }
                if elapsed >= AIM_TIMEOUT {
                    return self.fail(WindLaunchFailure::AimNeverSettled, observation.now);
                }
                WindLaunchAction::Wait
            },
            WindLaunchState::WaitingForLaunch => {
                if !observation.on_ground && observation.velocity_y_milli >= LAUNCH_VELOCITY_THRESHOLD {
                    self.finish(observation.now);
                    return WindLaunchAction::Launched;
                }
                if elapsed >= LAUNCH_TIMEOUT {
                    return self.fail(WindLaunchFailure::NeverLaunched, observation.now);
                }
                WindLaunchAction::Wait
            },
        }
    }

    fn fail(&mut self, reason: WindLaunchFailure, now: u64) -> (action: WindLaunchAction)
        requires
            now + ATTEMPT_COOLDOWN <= u64::MAX,
        ensures
            final(self)@ == cooled_down(now),
            action == (WindLaunchAction::Failed { reason, retry_in: ATTEMPT_COOLDOWN }),
    {
        self.state = WindLaunchState::Idle;
        self.since = now;
        self.next_attempt_after = Some(now + ATTEMPT_COOLDOWN);
        WindLaunchAction::Failed { reason, retry_in: ATTEMPT_COOLDOWN }
    }

    fn finish(&mut self, now: u64)
        requires
            now + ATTEMPT_COOLDOWN <= u64::MAX,
        ensures
            final(self)@ == cooled_down(now),
    {
        self.state = WindLaunchState::Idle;
        self.since = now;
        self.next_attempt_after = Some(now + ATTEMPT_COOLDOWN);
    }
}

/// No waiting state outlives its deadline: once the longest timeout has
/// passed without the awaited observation, one step ends the attempt with
/// a failure and returns the machine to `Idle`.
pub proof fn lemma_no_launch_state_outlives_its_deadline(m: WindLaunchModel, obs: WindLaunchObservation)
    requires
        m.state == WindLaunchState::WaitingForSlotAck || m.state == WindLaunchState::AimingDown
            || m.state == WindLaunchState::WaitingForLaunch,
        obs.acknowledged_slot != Some(COMBAT_WIND_CHARGE_HOTBAR_INDEX),
        !obs.aim_settled,
        !launched(obs),
        obs.now >= m.since + LAUNCH_TIMEOUT,
    ensures
        launch_step(m, obs).0.state == WindLaunchState::Idle,
        launch_step(m, obs).1 is Failed,
{
}

/// Every attempt that ends -- launched or failed -- leaves the machine idle
/// and imposes the full cooldown: no new attempt before
/// `ATTEMPT_COOLDOWN` has passed, and one is allowed once it has.
pub proof fn lemma_every_ending_imposes_the_cooldown(m: WindLaunchModel, obs: WindLaunchObservation, later: u64)
    requires
        obs.now + ATTEMPT_COOLDOWN <= u64::MAX,
        launch_step(m, obs).1 is Launched || launch_step(m, obs).1 is Failed,
    ensures
        launch_step(m, obs).0.state == WindLaunchState::Idle,
        later < obs.now + ATTEMPT_COOLDOWN ==> !launch_ready_at(launch_step(m, obs).0, later),
        later >= obs.now + ATTEMPT_COOLDOWN ==> launch_ready_at(launch_step(m, obs).0, later),
{
}

/// A small hop is never mistaken for a launch: below the velocity
/// threshold the machine keeps waiting (until its deadline).
pub proof fn lemma_a_hop_is_not_a_launch(m: WindLaunchModel, obs: WindLaunchObservation)
    requires
        m.state == WindLaunchState::WaitingForLaunch,
        obs.velocity_y_milli < LAUNCH_VELOCITY_THRESHOLD,
        waited(obs.now, m.since) < LAUNCH_TIMEOUT,
    ensures
        launch_step(m, obs).1 == WindLaunchAction::Wait,
        launch_step(m, obs).0 == m,
{
}

} // verus!
