//! The per-tick attack decisions of a fight: when to swing, when to jump
//! for a critical hit, when to hold a ready swing, what a landed swing
//! records, and when the bot's own shield goes up or down.
//!
//! Times are monotonic clock readings and durations in nanoseconds;
//! distances and falls in thousandths of a block; vertical velocity in
//! thousandths of a block per tick.
use vstd::prelude::*;
use crate::combat::crits::{
    attack_ready, is_critical_window, prejump_wanted, should_force_crit_jump, should_prejump_for_crit, since_ns,
    CRIT_HOLD_TIMEOUT, FORCED_CRIT_JUMP_RETRY, SWORD_COOLDOWN,
};
use crate::combat::mace::{is_smash_attack_window, SMASH_ATTACK_MIN_FALL};
use crate::combat::movement::{AGGRESSIVE_CLOSE_DISTANCE, BACK_OFF_DISTANCE};
use crate::combat::state::CombatPhase;

verus! {

/// What the attack logic does this tick.
#[derive(Clone, Copy, Debug, PartialEq, Eq, Structural)]
pub enum AttackAction {
    /// Nothing: out of range, cooling down, or holding a swing.
    Wait,
    /// Jump now so the fall meets the end of the cooldown.
    PreJump,
    /// Jump now and hold the ready swing until it lands as a crit.
    CritJump,
    /// Swing with a sword or axe; `critical` when it lands as a crit.
    Swing { critical: bool },
    /// Swing the Mace; `smash` when the fall makes it a smash attack.
    MaceSwing { smash: bool },
}

/// One tick's readings for the attack decision.
#[derive(Clone, Copy, Debug, PartialEq, Eq, Structural)]
pub struct AttackInputs {
    pub within_attack_range: bool,
    pub now: u64,
    /// The cadence the swing is measured against.
    pub cooldown: u64,
    pub last_attack: Option<u64>,
    pub last_jump: Option<u64>,
    /// Since when a ready swing has been held for a crit, if it is.
    pub crit_hold_since: Option<u64>,
    pub holding_mace: bool,
    pub crit_enabled: bool,
    pub always_crit: bool,
    /// The target is down to its finishing health.
    pub finishing: bool,
    pub on_ground: bool,
    pub velocity_y_milli: i64,
    pub fall_distance: u64,
}

/// The attack decision and the crit-hold mark it leaves.
#[derive(Clone, Copy, Debug, PartialEq, Eq, Structural)]
pub struct AttackStep {
    pub action: AttackAction,
    /// The crit-hold mark after this tick (a swing clears it, see
    /// [`SwingRecord::landed`]).
    pub crit_hold_since: Option<u64>,
}

/// The attack decision, as a function of the tick's readings.
pub open spec fn attack_spec(i: AttackInputs) -> AttackStep {
    let ready = i.last_attack is None || since_ns(i.now, i.last_attack->0) >= i.cooldown;
    if !i.within_attack_range {
        AttackStep { action: AttackAction::Wait, crit_hold_since: None }
    } else if !ready {
        if !i.holding_mace && i.crit_enabled
            && prejump_wanted(i.on_ground, i.within_attack_range, i.last_attack, i.last_jump, i.now, i.cooldown) {
            AttackStep { action: AttackAction::PreJump, crit_hold_since: i.crit_hold_since }
        } else {
            AttackStep { action: AttackAction::Wait, crit_hold_since: i.crit_hold_since }
        }
    } else if i.holding_mace {
        AttackStep {
            action: AttackAction::MaceSwing {
                smash: !i.on_ground && i.velocity_y_milli < 0 && i.fall_distance >= SMASH_ATTACK_MIN_FALL,
            },
            crit_hold_since: i.crit_hold_since,
        }
    } else if !i.on_ground && i.velocity_y_milli < 0 {
        AttackStep { action: AttackAction::Swing { critical: true }, crit_hold_since: i.crit_hold_since }
    } else {
        // In the air and not yet falling, the hold starts now if it has not.
        let hold = if !i.on_ground && i.crit_hold_since is None { Some(i.now) } else { i.crit_hold_since };
        if !i.on_ground && since_ns(i.now, hold->0) < CRIT_HOLD_TIMEOUT {
            AttackStep { action: AttackAction::Wait, crit_hold_since: hold }
        } else if i.crit_enabled && (i.finishing || i.always_crit) && i.on_ground
            && !(hold is Some && since_ns(i.now, hold->0) >= CRIT_HOLD_TIMEOUT)
            && (i.last_jump is None || since_ns(i.now, i.last_jump->0) >= FORCED_CRIT_JUMP_RETRY) {
            AttackStep { action: AttackAction::CritJump, crit_hold_since: if hold is None { Some(i.now) } else { hold } }
        } else {
            AttackStep { action: AttackAction::Swing { critical: false }, crit_hold_since: hold }
        }
    }
}

/// Decides this tick's attack. Out of range nothing is held. While the
/// cooldown runs, the only move is the crit pre-jump (never with a Mace,
/// whose smash needs a real fall). A ready Mace swings at once; a ready
/// sword or axe swings as a crit while falling, holds (for at most
/// [`CRIT_HOLD_TIMEOUT`]) while rising, jumps for a crit on a finishing
/// blow or with `always_crit`, and otherwise swings plainly.
pub fn decide_attack(i: AttackInputs) -> (step: AttackStep)
    ensures
        step == attack_spec(i),
{
    if !i.within_attack_range {
        return AttackStep { action: AttackAction::Wait, crit_hold_since: None };
    }
    if !attack_ready(i.last_attack, i.now, i.cooldown) {
        if !i.holding_mace && i.crit_enabled
            && should_prejump_for_crit(i.on_ground, i.within_attack_range, i.last_attack, i.last_jump, i.now, i.cooldown) {
            return AttackStep { action: AttackAction::PreJump, crit_hold_since: i.crit_hold_since };
        }
        return AttackStep { action: AttackAction::Wait, crit_hold_since: i.crit_hold_since };
    }
    if i.holding_mace {
        let smash = is_smash_attack_window(i.on_ground, i.velocity_y_milli, i.fall_distance);
        return AttackStep { action: AttackAction::MaceSwing { smash }, crit_hold_since: i.crit_hold_since };
    }
    if is_critical_window(i.on_ground, i.velocity_y_milli) {
        return AttackStep { action: AttackAction::Swing { critical: true }, crit_hold_since: i.crit_hold_since };
    }
    let mut hold = i.crit_hold_since;
    if !i.on_ground {
        let since = match hold {
            Some(s) => s,
            None => {
                hold = Some(i.now);
                i.now
            },
        };
        let held: u64 = if i.now >= since { i.now - since } else { 0 };
        if held < CRIT_HOLD_TIMEOUT {
            return AttackStep { action: AttackAction::Wait, crit_hold_since: hold };
        }
    }
    let held_for: Option<u64> = match hold {
        Some(s) => Some(if i.now >= s { i.now - s } else { 0 }),
        None => None,
    };
    if i.crit_enabled && (i.finishing || i.always_crit)
        && should_force_crit_jump(i.on_ground, i.within_attack_range, i.last_jump, i.now, held_for) {
        let mark = match hold {
            None => Some(i.now),
            Some(s) => Some(s),
        };
        return AttackStep { action: AttackAction::CritJump, crit_hold_since: mark };
    }
    AttackStep { action: AttackAction::Swing { critical: false }, crit_hold_since: hold }
}

/// The cadence an attack is measured against: the configured cooldown when
/// set, else the recharge of the weapon in hand, else a sword's.
pub fn attack_cooldown(configured: Option<u64>, held_weapon: Option<u64>) -> (cooldown: u64)
    ensures
        cooldown == match configured {
            Some(c) => c,
            None => match held_weapon {
                Some(h) => h,
                None => SWORD_COOLDOWN,
            },
        },
{
    match configured {
        Some(c) => c,
        None => match held_weapon {
            Some(h) => h,
            None => SWORD_COOLDOWN,
        },
    }
}

/// The fight's phase between attacks, by distance to the target: chasing
/// beyond [`AGGRESSIVE_CLOSE_DISTANCE`], repositioning inside
/// [`BACK_OFF_DISTANCE`], strafing between.
pub fn compute_active_phase(distance: u64) -> (phase: CombatPhase)
    ensures
        phase == if distance > AGGRESSIVE_CLOSE_DISTANCE {
            CombatPhase::Chase
        } else if distance < BACK_OFF_DISTANCE {
            CombatPhase::Reposition
        } else {
            CombatPhase::Strafe
        },
{
    if distance > AGGRESSIVE_CLOSE_DISTANCE {
        CombatPhase::Chase
    } else if distance < BACK_OFF_DISTANCE {
        CombatPhase::Reposition
    } else {
        CombatPhase::Strafe
    }
}

/// Whether to begin a deliberate Wind Charge self-launch this tick: the
/// Mace is preferred, the bot is grounded and in range, neither a bite nor
/// another launch holds the hand, the launch machine is ready, and enough
/// ordinary hits have landed since the last attempt.
pub fn wants_to_begin_wind_launch(
    prefer_mace: bool,
    on_ground: bool,
    within_attack_range: bool,
    consume_active: bool,
    launch_ready: bool,
    hits_since_attempt: u32,
    hits_needed: u32,
) -> (r: bool)
    ensures
        r == (prefer_mace && on_ground && within_attack_range && !consume_active && launch_ready
            && hits_since_attempt >= hits_needed),
{
    prefer_mace && on_ground && within_attack_range && !consume_active && launch_ready && hits_since_attempt >= hits_needed
}

/// What a fight counts about its swings.
#[derive(Clone, Copy, Debug, PartialEq, Eq, Structural)]
pub struct SwingRecord {
    pub last_attack: Option<u64>,
    pub crit_hold_since: Option<u64>,
    pub hits_landed: u32,
    pub crits_landed: u32,
    /// Which of axe and sword is due next while the bot has no shield.
    pub axe_turn: bool,
    /// Ordinary hits since the last deliberate smash attempt.
    pub hits_since_mace_attempt: u32,
    /// Since when a launched smash has been awaited, if one is.
    pub awaiting_smash_since: Option<u64>,
}

impl SwingRecord {
    /// What a swing landed at `now` records: the attack time, the crit
    /// hold cleared, one more hit (and crit), the axe turn flipped, and --
    /// for a Mace swing -- the smash attempt counter rearmed and the awaited
    /// smash cleared, otherwise one more ordinary hit towards the next
    /// attempt. Counters saturate.
    pub fn landed(self, now: u64, critical: bool, mace: bool) -> (r: SwingRecord)
        ensures
            r.last_attack == Some(now),
            r.crit_hold_since is None,
            r.hits_landed == if self.hits_landed == u32::MAX { u32::MAX } else { (self.hits_landed + 1) as u32 },
            r.crits_landed == if !critical {
                self.crits_landed
            } else if self.crits_landed == u32::MAX {
                u32::MAX
            } else {
                (self.crits_landed + 1) as u32
            },
            r.axe_turn == !self.axe_turn,
            mace ==> r.hits_since_mace_attempt == 0 && r.awaiting_smash_since is None,
            !mace ==> r.awaiting_smash_since == self.awaiting_smash_since && r.hits_since_mace_attempt == if self.hits_since_mace_attempt
                == u32::MAX {
                u32::MAX
            } else {
                (self.hits_since_mace_attempt + 1) as u32
            },
    {
        SwingRecord {
            last_attack: Some(now),
            crit_hold_since: None,
            hits_landed: self.hits_landed.saturating_add(1),
            crits_landed: if critical { self.crits_landed.saturating_add(1) } else { self.crits_landed },
            axe_turn: !self.axe_turn,
            hits_since_mace_attempt: if mace { 0 } else { self.hits_since_mace_attempt.saturating_add(1) },
            awaiting_smash_since: if mace { None } else { self.awaiting_smash_since },
        }
    }
}

/// A change to the bot's own shield.
#[derive(Clone, Copy, Debug, PartialEq, Eq, Structural)]
pub enum ShieldChange {
    Raise,
    Lower,
    Keep,
}

/// The shield change for a tick.
pub open spec fn shield_change_spec(should_raise: bool, shield_equipped: bool, raised: bool) -> ShieldChange {
    if should_raise && shield_equipped && !raised {
        ShieldChange::Raise
    } else if (!should_raise || !shield_equipped) && raised {
        ShieldChange::Lower
    } else {
        ShieldChange::Keep
    }
}

/// The shield change for this tick: raise when it should be up, a shield
/// is equipped and it is down; lower when it is up but should not be, or
/// no shield is equipped any more; otherwise keep it as it is.
pub fn shield_change(should_raise: bool, shield_equipped: bool, raised: bool) -> (c: ShieldChange)
    ensures
        c == shield_change_spec(should_raise, shield_equipped, raised),
{
    if should_raise && shield_equipped && !raised {
        ShieldChange::Raise
    } else if (!should_raise || !shield_equipped) && raised {
        ShieldChange::Lower
    } else {
        ShieldChange::Keep
    }
}

/// A shield that breaks while raised is always lowered: whatever the
/// threat, no tick leaves it marked raised without a shield.
pub proof fn lemma_a_missing_shield_is_never_left_raised(should_raise: bool)
    ensures
        shield_change_spec(should_raise, false, true) == ShieldChange::Lower,
        shield_change_spec(should_raise, false, false) == ShieldChange::Keep,
{
}

/// Out of reach nothing is ever held or swung, and a swing never happens
/// before the cooldown is up.
pub proof fn lemma_no_swing_out_of_range_or_early(i: AttackInputs)
    ensures
        !i.within_attack_range ==> attack_spec(i) == (AttackStep { action: AttackAction::Wait, crit_hold_since: None }),
        (attack_spec(i).action is Swing || attack_spec(i).action is MaceSwing)
            ==> i.within_attack_range && (i.last_attack is None || since_ns(i.now, i.last_attack->0) >= i.cooldown),
{
}

} // verus!
