//! When a fight eats, and where the food (or a Wind Charge) goes in the
//! hotbar. Eating never leaves the fight: one bite, then straight back to
//! swinging while it takes effect. Times are in milliseconds.
use vstd::prelude::*;
use crate::equipment::model::{HOTBAR_PROTOCOL_SLOTS_END, HOTBAR_PROTOCOL_SLOTS_START};

verus! {

/// The hotbar index combat keeps food in while eating (slot 8 in game),
/// distinct from the weapon's so a bite never displaces it.
pub const COMBAT_FOOD_HOTBAR_INDEX: u8 = 7;

/// The protocol slot of [`COMBAT_FOOD_HOTBAR_INDEX`].
pub const COMBAT_FOOD_PROTOCOL_SLOT: usize = 43;

/// The hotbar index reserved for the Wind Charge of a self-launch.
pub const COMBAT_WIND_CHARGE_HOTBAR_INDEX: u8 = 6;

/// The protocol slot of [`COMBAT_WIND_CHARGE_HOTBAR_INDEX`].
pub const COMBAT_WIND_CHARGE_PROTOCOL_SLOT: usize = 42;

/// What the eating logic does this tick.
#[derive(Clone, Copy, Debug, PartialEq, Eq, Structural)]
pub enum EatingStep {
    /// The target is down to its finishing health: abandon the running
    /// bite (an interrupted bite keeps the food) and keep fighting.
    Abandon,
    /// Nothing to do about food.
    Skip,
    /// Advance the running bite.
    Drive,
    /// Start a bite.
    Begin,
}

/// The eating decision.
pub open spec fn eating_spec(
    finishing: bool,
    consume_active: bool,
    since_last_bite: Option<u64>,
    eat_cooldown: u64,
    wants_food: bool,
    consume_ready: bool,
    launch_active: bool,
) -> EatingStep {
    if finishing {
        if consume_active { EatingStep::Abandon } else { EatingStep::Skip }
    } else if consume_active {
        EatingStep::Drive
    } else if since_last_bite is Some && since_last_bite->0 < eat_cooldown {
        EatingStep::Skip
    } else if !wants_food || !consume_ready || launch_active {
        EatingStep::Skip
    } else {
        EatingStep::Begin
    }
}

/// What the eating logic does this tick: abandon a running bite when
/// finishing the target (otherwise ignore food then), advance a running
/// bite, and otherwise begin one only when hurt enough, past the cooldown
/// since the last bite finished, with the consume machine ready and no
/// Wind Charge launch holding the hand.
pub fn eating_step(
    finishing: bool,
    consume_active: bool,
    since_last_bite: Option<u64>,
    eat_cooldown: u64,
    wants_food: bool,
    consume_ready: bool,
    launch_active: bool,
) -> (step: EatingStep)
    ensures
        step == eating_spec(finishing, consume_active, since_last_bite, eat_cooldown, wants_food, consume_ready, launch_active),
{
    if finishing {
        return if consume_active { EatingStep::Abandon } else { EatingStep::Skip };
    }
    if consume_active {
        return EatingStep::Drive;
    }
    if let Some(since) = since_last_bite {
        if since < eat_cooldown {
            return EatingStep::Skip;
        }
    }
    if !wants_food || !consume_ready || launch_active {
        return EatingStep::Skip;
    }
    EatingStep::Begin
}

/// How an item reaches the hand.
#[derive(Clone, Copy, Debug, PartialEq, Eq, Structural)]
pub enum HandPlacement {
    /// It is already in the hotbar: select this index.
    Select(u8),
    /// Swap it from `source` into the reserved `destination` slot, then
    /// select `index`.
    SwapIn { source: usize, destination: usize, index: u8 },
}

/// Whether protocol slot `slot` is in the hotbar.
pub open spec fn in_hotbar(slot: usize) -> bool {
    HOTBAR_PROTOCOL_SLOTS_START <= slot <= HOTBAR_PROTOCOL_SLOTS_END
}

/// How the food in protocol slot `slot` reaches the hand: selected where
/// it is when in the hotbar, otherwise swapped into the reserved food
/// slot.
pub fn food_placement(slot: usize) -> (p: HandPlacement)
    ensures
        in_hotbar(slot) ==> p == HandPlacement::Select((slot - HOTBAR_PROTOCOL_SLOTS_START) as u8),
        !in_hotbar(slot) ==> p == (HandPlacement::SwapIn {
            source: slot,
            destination: COMBAT_FOOD_PROTOCOL_SLOT,
            index: COMBAT_FOOD_HOTBAR_INDEX,
        }),
{
    if HOTBAR_PROTOCOL_SLOTS_START <= slot && slot <= HOTBAR_PROTOCOL_SLOTS_END {
        HandPlacement::Select((slot - HOTBAR_PROTOCOL_SLOTS_START) as u8)
    } else {
        HandPlacement::SwapIn { source: slot, destination: COMBAT_FOOD_PROTOCOL_SLOT, index: COMBAT_FOOD_HOTBAR_INDEX }
    }
}

/// How the Wind Charge in protocol slot `slot` reaches the hand: always
/// swapped into its reserved slot, so it never displaces the weapon or
/// food slots.
pub fn wind_charge_placement(slot: usize) -> (p: HandPlacement)
    ensures
        p == (HandPlacement::SwapIn {
            source: slot,
            destination: COMBAT_WIND_CHARGE_PROTOCOL_SLOT,
            index: COMBAT_WIND_CHARGE_HOTBAR_INDEX,
        }),
{
    HandPlacement::SwapIn {
        source: slot,
        destination: COMBAT_WIND_CHARGE_PROTOCOL_SLOT,
        index: COMBAT_WIND_CHARGE_HOTBAR_INDEX,
    }
}

/// A bite is never started while another bite or a launch holds the hand,
/// nor while finishing the target.
pub proof fn lemma_one_claim_on_the_hand(
    finishing: bool,
    consume_active: bool,
    since_last_bite: Option<u64>,
    eat_cooldown: u64,
    wants_food: bool,
    consume_ready: bool,
    launch_active: bool,
)
    ensures
        (finishing || consume_active || launch_active) ==> eating_spec(finishing, consume_active, since_last_bite,
            eat_cooldown, wants_food, consume_ready, launch_active) != EatingStep::Begin,
{
}

} // verus!
