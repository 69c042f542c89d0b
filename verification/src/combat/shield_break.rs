//! Weapon-choice policy: sword or axe, for breaking a blocking target's
//! shield and for always fighting with the best available weapon.
use vstd::prelude::*;
use crate::equipment::model::EquipmentItem;
use crate::equipment::offhand::SHIELD;
use crate::equipment::tool_selection::ToolCategory;
use crate::text::str_equal;

verus! {

/// Whether to wield an axe: exactly while the target appears to block.
pub fn should_wield_axe(target_blocking: bool) -> (r: bool)
    ensures
        r == target_blocking,
{
    target_blocking
}

/// Whether to switch back to the sword: exactly when the target does not
/// block -- the complement of [`should_wield_axe`].
pub fn should_switch_back_to_sword(target_blocking: bool) -> (r: bool)
    ensures
        r == !target_blocking,
{
    !target_blocking
}

/// The weapon-category policy: an axe while the target blocks; an axe on
/// its alternating turn when the bot's own shield is unavailable; else the
/// sword when one is held, otherwise the axe.
pub open spec fn weapon_for(target_blocking: bool, sword_available: bool, own_shield_available: bool, axe_turn: bool) -> ToolCategory {
    if target_blocking {
        ToolCategory::Axe
    } else if !own_shield_available && axe_turn {
        ToolCategory::Axe
    } else if sword_available {
        ToolCategory::Sword
    } else {
        ToolCategory::Axe
    }
}

/// The weapon category to wield right now.
pub fn desired_weapon_category(
    target_blocking: bool,
    sword_available: bool,
    own_shield_available: bool,
    axe_turn: bool,
) -> (c: ToolCategory)
    ensures
        c == weapon_for(target_blocking, sword_available, own_shield_available, axe_turn),
{
    if should_wield_axe(target_blocking) {
        return ToolCategory::Axe;
    }
    if !own_shield_available && axe_turn {
        return ToolCategory::Axe;
    }
    if should_switch_back_to_sword(target_blocking) && sword_available {
        ToolCategory::Sword
    } else {
        ToolCategory::Axe
    }
}

/// Whether `current` of `max` durability is critically low: at or below a
/// tenth of the maximum. A zero maximum (untracked durability) is never
/// critical.
pub open spec fn durability_critical(current: u32, max: u32) -> bool {
    max > 0 && 10 * current <= max
}

/// Whether `current`/`max` durability counts as critically low.
pub fn is_durability_critical(current: u32, max: u32) -> (r: bool)
    ensures
        r == durability_critical(current, max),
{
    max > 0 && 10 * (current as u64) <= max as u64
}

/// Whether the offhand item is a shield healthy enough to rely on.
pub open spec fn shield_serviceable(offhand: Option<EquipmentItem>) -> bool {
    match offhand {
        None => false,
        Some(item) => item.item_id@ == SHIELD@ && !durability_critical(item.current_durability, item.max_durability),
    }
}

/// Whether the bot's own offhand holds a shield that is present, really a
/// shield, and not critically damaged.
pub fn own_shield_serviceable(offhand: Option<&EquipmentItem>) -> (r: bool)
    ensures
        r == shield_serviceable(match offhand {
            Some(item) => Some(*item),
            None => None,
        }),
{
    match offhand {
        None => false,
        Some(item) => str_equal(item.item_id.as_str(), SHIELD) && !is_durability_critical(item.current_durability, item.max_durability),
    }
}

/// While the target blocks, the axe wins over every other input; with a
/// sound shield of its own and a sword at hand, a target that does not
/// block is always fought with the sword.
pub proof fn lemma_blocking_always_means_axe(sword_available: bool, own_shield_available: bool, axe_turn: bool)
    ensures
        weapon_for(true, sword_available, own_shield_available, axe_turn) == ToolCategory::Axe,
        own_shield_available && sword_available ==> weapon_for(false, sword_available, own_shield_available, axe_turn) == ToolCategory::Sword,
{
}

} // verus!
