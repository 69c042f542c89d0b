//! Plain data shared between the inventory reader and the equipment
//! decisions.
use vstd::prelude::*;

verus! {

/// The protocol slot index of the offhand inside the player's own
/// inventory menu.
pub const OFFHAND_PROTOCOL_SLOT: usize = 45;

/// First protocol slot of the 36-slot main inventory (hotbar included).
pub const INVENTORY_PROTOCOL_SLOTS_START: usize = 9;

/// Last protocol slot of the main inventory.
pub const INVENTORY_PROTOCOL_SLOTS_END: usize = 44;

/// First protocol slot of the hotbar, the last nine inventory slots.
pub const HOTBAR_PROTOCOL_SLOTS_START: usize = 36;

/// Last protocol slot of the hotbar.
pub const HOTBAR_PROTOCOL_SLOTS_END: usize = 44;

/// A single item stack the equipment system cares about. `slot` is the
/// protocol slot index inside the player's own inventory menu.
#[derive(Clone, Debug, PartialEq, Eq)]
pub struct EquipmentItem {
    pub slot: usize,
    pub item_id: String,
    pub current_durability: u32,
    pub max_durability: u32,
}

/// Everything the equipment system reads, in one consistent snapshot.
#[derive(Clone, Debug)]
pub struct EquipmentSnapshot {
    /// Indexed by `ArmorSlot::index` (head, chest, legs, feet).
    pub armor_worn: [Option<EquipmentItem>; 4],
    pub offhand_worn: Option<EquipmentItem>,
    pub inventory: Vec<EquipmentItem>,
}

} // verus!
