//! Which weapon the bot should hold this tick, decided fresh from the live
//! inventory: the Mace while a smash is possible, an axe against a
//! blocking target (or on its turn while the bot has no shield), otherwise
//! the best sword. Times are in nanoseconds; falls in thousandths of a
//! block; vertical velocity in thousandths of a block per tick.
use vstd::prelude::*;
use crate::combat::crits::{cooldown_for, since_ns, weapon_cooldown};
use crate::combat::mace::{is_smash_attack_window, MACE_COOLDOWN_MILLIS, MACE_ITEM_ID, SMASH_ATTACK_MIN_FALL};
use crate::combat::shield_break::{
    desired_weapon_category, durability_critical, is_durability_critical, own_shield_serviceable, shield_serviceable,
    weapon_for,
};
use crate::combat::wind_launch::LAUNCH_VELOCITY_THRESHOLD;
use crate::config::ToolRankingMode;
use crate::equipment::model::HOTBAR_PROTOCOL_SLOTS_START;
use crate::equipment::model::EquipmentItem;
use crate::equipment::tool_selection::{category, category_of, ToolCategory};
use crate::equipment::tools::{best_candidate, is_of};
use crate::text::{str_equal, strip_minecraft_prefix};

verus! {

/// How long the Mace stays in hand after a launch, waiting for the smash
/// (3 s): long enough for its slow recharge, short enough not to strand
/// the bot with a Mace when the target dodges.
pub const SMASH_WINDOW_TIMEOUT: u64 = 3_000_000_000;

/// The Mace's recharge, in nanoseconds.
pub open spec fn mace_cooldown() -> u64 {
    (MACE_COOLDOWN_MILLIS * 1_000_000) as u64
}

/// What to do about the weapon in hand.
#[derive(Clone, Copy, Debug, PartialEq, Eq, Structural)]
pub enum WeaponAction {
    /// The right weapon is already held.
    Keep,
    /// Put the item in this protocol slot in hand.
    EquipSlot(usize),
    /// Put the best weapon of this category in hand.
    EquipCategory(ToolCategory),
}

/// The weapon decision and what the fight learns from it.
#[derive(Clone, Copy, Debug, PartialEq, Eq, Structural)]
pub struct WeaponChoice {
    pub action: WeaponAction,
    /// The recharge of the weapon the next swing is timed against.
    pub held_cooldown: u64,
    /// Whether the next swing is a Mace swing.
    pub holding_mace: bool,
    /// The awaited smash after this tick (dropped once it waited
    /// [`SMASH_WINDOW_TIMEOUT`]).
    pub awaiting_smash_since: Option<u64>,
    /// Whether a successful equip starts a shield break: an axe against a
    /// blocking target.
    pub breaks_shield: bool,
}

/// The first inventory entry in protocol slot `slot`.
pub open spec fn item_at(inventory: Seq<EquipmentItem>, slot: int) -> Option<EquipmentItem>
    decreases inventory.len(),
{
    if inventory.len() == 0 {
        None
    } else if inventory[0].slot == slot {
        Some(inventory[0])
    } else {
        item_at(inventory.drop_first(), slot)
    }
}

/// The first inventory entry holding `id`.
pub open spec fn item_with_id(inventory: Seq<EquipmentItem>, id: Seq<char>) -> Option<EquipmentItem>
    decreases inventory.len(),
{
    if inventory.len() == 0 {
        None
    } else if inventory[0].item_id@ == id {
        Some(inventory[0])
    } else {
        item_with_id(inventory.drop_first(), id)
    }
}

/// The plain value of an optional reference.
pub open spec fn deref_item(item: Option<&EquipmentItem>) -> Option<EquipmentItem> {
    match item {
        Some(i) => Some(*i),
        None => None,
    }
}

/// Whether `item` is a Mace.
pub open spec fn is_mace(item: Option<EquipmentItem>) -> bool {
    item is Some && item->0.item_id@ == MACE_ITEM_ID@
}

/// The weapon decision, as a function of its readings.
pub open spec fn weapon_spec(
    inventory: Seq<EquipmentItem>,
    selected_hotbar_slot: Option<u8>,
    offhand: Option<EquipmentItem>,
    prefer_mace: bool,
    target_blocking: bool,
    axe_turn: bool,
    awaiting_smash_since: Option<u64>,
    now: u64,
    on_ground: bool,
    velocity_y_milli: i64,
    fall_distance: u64,
) -> WeaponChoice {
    let current = match selected_hotbar_slot {
        Some(s) => item_at(inventory, HOTBAR_PROTOCOL_SLOTS_START + s),
        None => None,
    };
    let cooldown = cooldown_for(match current {
        Some(c) => Some(c.item_id@),
        None => None,
    });
    let critical = current is Some && durability_critical(current->0.current_durability, current->0.max_durability);
    let awaiting = match awaiting_smash_since {
        Some(since) => if since_ns(now, since) >= SMASH_WINDOW_TIMEOUT { None } else { Some(since) },
        None => None,
    };
    let falling_into_smash = (!on_ground && velocity_y_milli < 0 && fall_distance >= SMASH_ATTACK_MIN_FALL)
        || (!on_ground && velocity_y_milli >= LAUNCH_VELOCITY_THRESHOLD);
    let hold_mace = awaiting is Some || falling_into_smash;
    let mace = item_with_id(inventory, MACE_ITEM_ID@);
    if prefer_mace && hold_mace && !target_blocking && mace is Some {
        WeaponChoice {
            action: if !is_mace(current) || critical { WeaponAction::EquipSlot(mace->0.slot) } else { WeaponAction::Keep },
            held_cooldown: mace_cooldown(),
            holding_mace: true,
            awaiting_smash_since: awaiting,
            breaks_shield: false,
        }
    } else {
        let sword_available = exists|j: int| 0 <= j < inventory.len() && is_of(inventory, j, ToolCategory::Sword);
        let wanted = weapon_for(target_blocking, sword_available, shield_serviceable(offhand), axe_turn);
        let matches = current is Some && category_of(strip_minecraft_prefix(current->0.item_id@)) == Some(wanted);
        WeaponChoice {
            action: if matches && !critical { WeaponAction::Keep } else { WeaponAction::EquipCategory(wanted) },
            held_cooldown: cooldown,
            holding_mace: is_mace(current),
            awaiting_smash_since: awaiting,
            breaks_shield: !(matches && !critical) && wanted == ToolCategory::Axe && target_blocking,
        }
    }
}

/// The inventory entry held in hand: the one in the selected hotbar slot.
fn currently_wielded(inventory: &[EquipmentItem], selected_hotbar_slot: u8) -> (r: Option<&EquipmentItem>)
    ensures
        deref_item(r) == item_at(inventory@, HOTBAR_PROTOCOL_SLOTS_START + selected_hotbar_slot),
{
    let slot = HOTBAR_PROTOCOL_SLOTS_START + selected_hotbar_slot as usize;
    let mut i: usize = 0;
    assert(inventory@.subrange(0, inventory@.len() as int) =~= inventory@);
    while i < inventory.len()
        invariant
            i <= inventory@.len(),
            item_at(inventory@, slot as int) == item_at(inventory@.subrange(i as int, inventory@.len() as int), slot as int),
            slot == HOTBAR_PROTOCOL_SLOTS_START + selected_hotbar_slot,
        decreases inventory@.len() - i,
    {
        let ghost rest = inventory@.subrange(i as int, inventory@.len() as int);
        assert(rest.drop_first() =~= inventory@.subrange(i + 1, inventory@.len() as int));
        if inventory[i].slot == slot {
            return Some(&inventory[i]);
        }
        i = i + 1;
    }
    None
}

fn find_with_id<'a>(inventory: &'a [EquipmentItem], id: &str) -> (r: Option<&'a EquipmentItem>)
    ensures
        deref_item(r) == item_with_id(inventory@, id@),
{
    let mut i: usize = 0;
    assert(inventory@.subrange(0, inventory@.len() as int) =~= inventory@);
    while i < inventory.len()
        invariant
            i <= inventory@.len(),
            item_with_id(inventory@, id@) == item_with_id(inventory@.subrange(i as int, inventory@.len() as int), id@),
        decreases inventory@.len() - i,
    {
        let ghost rest = inventory@.subrange(i as int, inventory@.len() as int);
        assert(rest.drop_first() =~= inventory@.subrange(i + 1, inventory@.len() as int));
        if str_equal(inventory[i].item_id.as_str(), id) {
            return Some(&inventory[i]);
        }
        i = i + 1;
    }
    None
}

/// Decides the weapon for this tick. The held item is the inventory entry
/// in the selected hotbar slot; its recharge times the next swing. A
/// launched smash is awaited for at most [`SMASH_WINDOW_TIMEOUT`]. While a
/// smash is possible (awaited, or the bot is falling far enough or was
/// launched hard), the Mace is preferred and the target is not blocking,
/// the first Mace is put in hand (unless already held and sound).
/// Otherwise the shield-break policy picks a category, and the best of it
/// is put in hand unless the held item already is one and sound.
pub fn choose_weapon(
    inventory: &[EquipmentItem],
    selected_hotbar_slot: Option<u8>,
    offhand: Option<&EquipmentItem>,
    prefer_mace: bool,
    target_blocking: bool,
    axe_turn: bool,
    awaiting_smash_since: Option<u64>,
    now: u64,
    on_ground: bool,
    velocity_y_milli: i64,
    fall_distance: u64,
) -> (c: WeaponChoice)
    ensures
        c == weapon_spec(inventory@, selected_hotbar_slot, deref_item(offhand), prefer_mace, target_blocking, axe_turn,
            awaiting_smash_since, now, on_ground, velocity_y_milli, fall_distance),
{
    let current = match selected_hotbar_slot {
        Some(s) => currently_wielded(inventory, s),
        None => None,
    };
    let cooldown = weapon_cooldown(match current {
        Some(item) => Some(item.item_id.as_str()),
        None => None,
    });
    let current_is_mace = match current {
        Some(item) => str_equal(item.item_id.as_str(), MACE_ITEM_ID),
        None => false,
    };
    let critical = match current {
        Some(item) => is_durability_critical(item.current_durability, item.max_durability),
        None => false,
    };
    let own_shield = own_shield_serviceable(offhand);
    let awaiting = match awaiting_smash_since {
        Some(since) => {
            let waited: u64 = if now >= since { now - since } else { 0 };
            if waited >= SMASH_WINDOW_TIMEOUT { None } else { Some(since) }
        },
        None => None,
    };
    let falling_into_smash = is_smash_attack_window(on_ground, velocity_y_milli, fall_distance)
        || (!on_ground && velocity_y_milli >= LAUNCH_VELOCITY_THRESHOLD);
    let hold_mace = awaiting.is_some() || falling_into_smash;
    if prefer_mace && hold_mace && !target_blocking {
        if let Some(mace) = find_with_id(inventory, MACE_ITEM_ID) {
            let action = if !current_is_mace || critical { WeaponAction::EquipSlot(mace.slot) } else { WeaponAction::Keep };
            return WeaponChoice {
                action,
                held_cooldown: MACE_COOLDOWN_MILLIS * 1_000_000,
                holding_mace: true,
                awaiting_smash_since: awaiting,
                breaks_shield: false,
            };
        }
    }
    let sword_available = best_candidate(ToolRankingMode::Score, ToolCategory::Sword, inventory).is_some();
    let wanted = desired_weapon_category(target_blocking, sword_available, own_shield, axe_turn);
    let matches = match current {
        Some(item) => match category(item.item_id.as_str()) {
            Some(c) => c == wanted,
            None => false,
        },
        None => false,
    };
    let keep = matches && !critical;
    WeaponChoice {
        action: if keep { WeaponAction::Keep } else { WeaponAction::EquipCategory(wanted) },
        held_cooldown: cooldown,
        holding_mace: current_is_mace,
        awaiting_smash_since: awaiting,
        breaks_shield: !keep && wanted == ToolCategory::Axe && target_blocking,
    }
}

} // verus!
