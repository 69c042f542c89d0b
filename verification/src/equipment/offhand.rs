//! Offhand item selection.
use vstd::prelude::*;
use crate::config::OffhandPriority;

verus! {

/// The Totem of Undying's item id.
pub const TOTEM_OF_UNDYING: &'static str = "minecraft:totem_of_undying";

/// The shield's item id.
pub const SHIELD: &'static str = "minecraft:shield";

/// Which item the offhand should hold, given whether a totem and/or a
/// shield exist anywhere in the inventory: the preferred one if present,
/// else the other, else `None` (leave the offhand as it is).
pub fn desired_item(priority: OffhandPriority, has_totem: bool, has_shield: bool) -> (item: Option<&'static str>)
    ensures
        priority == OffhandPriority::Totem ==> item == (if has_totem {
            Some(TOTEM_OF_UNDYING)
        } else if has_shield {
            Some(SHIELD)
        } else {
            None
        }),
        priority == OffhandPriority::Shield ==> item == (if has_shield {
            Some(SHIELD)
        } else if has_totem {
            Some(TOTEM_OF_UNDYING)
        } else {
            None
        }),
{
    match priority {
        OffhandPriority::Totem => if has_totem {
            Some(TOTEM_OF_UNDYING)
        } else if has_shield {
            Some(SHIELD)
        } else {
            None
        },
        OffhandPriority::Shield => if has_shield {
            Some(SHIELD)
        } else if has_totem {
            Some(TOTEM_OF_UNDYING)
        } else {
            None
        },
    }
}

} // verus!
