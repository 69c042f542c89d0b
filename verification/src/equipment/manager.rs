//! The automatic armor/offhand equipment service: from one snapshot of the
//! inventory it decides which armor pieces to replace and what the offhand
//! should hold. Every decision is recomputed from a fresh snapshot, so
//! pickups, drops and wear are picked up on the next tick.
use vstd::prelude::*;
use crate::config::{ArmorMode, EquipmentConfig, OffhandPriority};
use crate::container::model::{ClickButton, InventoryClick};
use crate::equipment::armor::{armor_index, best_candidate, classify_id, is_best_entry, replaces, should_replace, ArmorSlot};
use crate::equipment::autodrop::{is_protected, should_drop};
use crate::equipment::model::{EquipmentItem, EquipmentSnapshot};
use crate::equipment::offhand::{desired_item, SHIELD, TOTEM_OF_UNDYING};
use crate::text::str_equal;

verus! {

/// The armor/offhand equipment service.
#[derive(Clone, Debug)]
pub struct EquipmentService {
    pub config: EquipmentConfig,
}

/// A replacement of one armor piece.
#[derive(Clone, Debug, PartialEq, Eq)]
pub struct ArmorSwap {
    /// The inventory slot the new piece comes from.
    pub source: usize,
    /// The armor slot it goes to.
    pub target: usize,
    pub item_id: String,
    /// The id of what was worn there, if anything.
    pub displaced: Option<String>,
}

/// The text an optional string holds.
pub open spec fn text_of(s: Option<String>) -> Option<Seq<char>> {
    match s {
        Some(t) => Some(t@),
        None => None,
    }
}

/// The plain value of an optional reference.
pub open spec fn value_of(item: Option<&EquipmentItem>) -> Option<EquipmentItem> {
    match item {
        Some(i) => Some(*i),
        None => None,
    }
}

/// The inventory entry that is the best piece for `slot`, if any.
pub open spec fn best_entry(mode: ArmorMode, slot: ArmorSlot, inventory: Seq<EquipmentItem>) -> Option<int> {
    if exists|i: int| is_best_entry(mode, slot, inventory, i) {
        Some(choose|i: int| is_best_entry(mode, slot, inventory, i))
    } else {
        None
    }
}

/// There is at most one best piece.
proof fn lemma_best_entry_unique(mode: ArmorMode, slot: ArmorSlot, inventory: Seq<EquipmentItem>, i: int, j: int)
    requires
        is_best_entry(mode, slot, inventory, i),
        is_best_entry(mode, slot, inventory, j),
    ensures
        i == j,
{
}

/// The armor swap for `slot`: the best piece for it, when it should replace
/// what is worn.
pub open spec fn armor_swap_spec(
    mode: ArmorMode,
    slot: ArmorSlot,
    worn: Option<EquipmentItem>,
    inventory: Seq<EquipmentItem>,
) -> Option<(usize, Seq<char>)> {
    match best_entry(mode, slot, inventory) {
        None => None,
        Some(i) => if replaces(mode, worn, inventory[i], (classify_id(inventory[i].item_id@)->0).1) {
            Some((inventory[i].slot, inventory[i].item_id@))
        } else {
            None
        },
    }
}

/// Whether the inventory or the worn offhand item holds `id`.
pub open spec fn holds_anywhere(inventory: Seq<EquipmentItem>, offhand: Option<EquipmentItem>, id: Seq<char>) -> bool {
    (exists|i: int| 0 <= i < inventory.len() && inventory[i].item_id@ == id)
        || (offhand is Some && offhand->0.item_id@ == id)
}

/// The first inventory entry holding `id`.
pub open spec fn first_holding(inventory: Seq<EquipmentItem>, id: Seq<char>) -> Option<EquipmentItem>
    decreases inventory.len(),
{
    if inventory.len() == 0 {
        None
    } else if inventory[0].item_id@ == id {
        Some(inventory[0])
    } else {
        first_holding(inventory.drop_first(), id)
    }
}

/// The offhand item the priority asks for, given what is held.
pub open spec fn offhand_wish(priority: OffhandPriority, has_totem: bool, has_shield: bool) -> Option<Seq<char>> {
    match priority {
        OffhandPriority::Totem => if has_totem {
            Some(TOTEM_OF_UNDYING@)
        } else if has_shield {
            Some(SHIELD@)
        } else {
            None
        },
        OffhandPriority::Shield => if has_shield {
            Some(SHIELD@)
        } else if has_totem {
            Some(TOTEM_OF_UNDYING@)
        } else {
            None
        },
    }
}

/// The offhand restock: the wished-for item, when it is not already worn,
/// from the first inventory entry holding it.
pub open spec fn offhand_swap_spec(
    priority: OffhandPriority,
    inventory: Seq<EquipmentItem>,
    offhand: Option<EquipmentItem>,
) -> Option<(usize, Seq<char>)> {
    let has_totem = holds_anywhere(inventory, offhand, TOTEM_OF_UNDYING@);
    let has_shield = holds_anywhere(inventory, offhand, SHIELD@);
    match offhand_wish(priority, has_totem, has_shield) {
        None => None,
        Some(wanted) => if offhand is Some && offhand->0.item_id@ == wanted {
            None
        } else {
            match first_holding(inventory, wanted) {
                None => None,
                Some(source) => Some((source.slot, wanted)),
            }
        },
    }
}

fn holds_id(inventory: &[EquipmentItem], offhand: Option<&EquipmentItem>, id: &str) -> (r: bool)
    ensures
        r == holds_anywhere(inventory@, value_of(offhand), id@),
{
    let mut i: usize = 0;
    while i < inventory.len()
        invariant
            i <= inventory@.len(),
            forall|j: int| 0 <= j < i ==> inventory@[j].item_id@ != id@,
        decreases inventory@.len() - i,
    {
        if str_equal(inventory[i].item_id.as_str(), id) {
            return true;
        }
        i = i + 1;
    }
    match offhand {
        Some(item) => str_equal(item.item_id.as_str(), id),
        None => false,
    }
}

fn find_holding<'a>(inventory: &'a [EquipmentItem], id: &str) -> (r: Option<&'a EquipmentItem>)
    ensures
        value_of(r) == first_holding(inventory@, id@),
{
    let mut i: usize = 0;
    assert(inventory@.subrange(0, inventory@.len() as int) =~= inventory@);
    while i < inventory.len()
        invariant
            i <= inventory@.len(),
            first_holding(inventory@, id@) == first_holding(inventory@.subrange(i as int, inventory@.len() as int), id@),
        decreases inventory@.len() - i,
    {
        let ghost rest = inventory@.subrange(i as int, inventory@.len() as int);
        assert(rest.drop_first() =~= inventory@.subrange(i + 1, inventory@.len() as int));
        if str_equal(inventory[i].item_id.as_str(), id) {
            return Some(&inventory[i]);
        }
        i = i + 1;
    }
    None
}

/// The three clicks that swap the items in `source` and `destination`:
/// pick up, place (taking whatever was there), put that back.
pub fn swap_clicks(source: usize, destination: usize) -> (clicks: Vec<InventoryClick>)
    ensures
        clicks@ == seq![
            InventoryClick { slot: source, button: ClickButton::Left },
            InventoryClick { slot: destination, button: ClickButton::Left },
            InventoryClick { slot: source, button: ClickButton::Left },
        ],
{
    vec![
        InventoryClick { slot: source, button: ClickButton::Left },
        InventoryClick { slot: destination, button: ClickButton::Left },
        InventoryClick { slot: source, button: ClickButton::Left },
    ]
}

impl EquipmentService {
    /// A service driven by `config`.
    pub fn new(config: EquipmentConfig) -> (s: Self)
        ensures
            s.config == config,
    {
        EquipmentService { config }
    }

    /// The armor replacement for `slot` in `snapshot`: the best piece for
    /// the slot under the configured armor mode, when it should replace
    /// what is worn there.
    pub fn armor_swap(&self, snapshot: &EquipmentSnapshot, slot: ArmorSlot) -> (r: Option<ArmorSwap>)
        ensures
            match armor_swap_spec(self.config.armor.mode, slot, snapshot.armor_worn@[armor_index(slot)], snapshot.inventory@) {
                None => r is None,
                Some((source, id)) => r is Some && r->0.source == source && r->0.item_id@ == id
                    && r->0.target == 5 + armor_index(slot)
                    && text_of(r->0.displaced) == match snapshot.armor_worn@[armor_index(slot)] {
                        Some(w) => Some(w.item_id@),
                        None => None,
                    },
            },
    {
        let mode = self.config.armor.mode;
        let worn = snapshot.armor_worn[slot.index()].as_ref();
        let candidate = match best_candidate(mode, slot, snapshot.inventory.as_slice()) {
            Some(c) => c,
            None => {
                assert(!exists|i: int| is_best_entry(mode, slot, snapshot.inventory@, i));
                return None;
            },
        };
        let ghost i = choose|i: int| is_best_entry(mode, slot, snapshot.inventory@, i) && *candidate.item == snapshot.inventory@[i]
            && candidate.material == (classify_id(snapshot.inventory@[i].item_id@)->0).1;
        proof {
            let k = choose|k: int| is_best_entry(mode, slot, snapshot.inventory@, k);
            lemma_best_entry_unique(mode, slot, snapshot.inventory@, i, k);
        }
        if !should_replace(mode, worn, candidate) {
            return None;
        }
        Some(ArmorSwap {
            source: candidate.item.slot,
            target: slot.protocol_slot(),
            item_id: candidate.item.item_id.clone(),
            displaced: match worn {
                Some(w) => Some(w.item_id.clone()),
                None => None,
            },
        })
    }

    /// The offhand restock for `snapshot`: the item the offhand priority
    /// asks for (counting one already worn in the offhand as held, so a
    /// worn totem or shield never flip-flops), unless it is already worn,
    /// from the first inventory entry holding it -- as its slot and id.
    pub fn offhand_swap(&self, snapshot: &EquipmentSnapshot) -> (r: Option<(usize, &'static str)>)
        ensures
            match offhand_swap_spec(self.config.offhand.priority, snapshot.inventory@, snapshot.offhand_worn) {
                None => r is None,
                Some((source, id)) => r matches Some((s, i)) && s == source && i@ == id,
            },
    {
        let offhand = snapshot.offhand_worn.as_ref();
        let has_totem = holds_id(snapshot.inventory.as_slice(), offhand, TOTEM_OF_UNDYING);
        let has_shield = holds_id(snapshot.inventory.as_slice(), offhand, SHIELD);
        let desired = match desired_item(self.config.offhand.priority, has_totem, has_shield) {
            Some(d) => d,
            None => return None,
        };
        let already_worn = match offhand {
            Some(item) => str_equal(item.item_id.as_str(), desired),
            None => false,
        };
        if already_worn {
            return None;
        }
        match find_holding(snapshot.inventory.as_slice(), desired) {
            Some(source) => Some((source.slot, desired)),
            None => None,
        }
    }

    /// Whether a displaced armor piece should be dropped, per the armor
    /// autodrop settings.
    pub fn drops_displaced_armor(&self, item_id: &str) -> (r: bool)
        ensures
            r == (self.config.autodrop.enabled && self.config.autodrop.armor.enabled
                && self.config.autodrop.armor.drop_when_better_available
                && !is_protected(item_id@, self.config.autodrop.protected_items@)),
    {
        should_drop(
            self.config.autodrop.enabled,
            &self.config.autodrop.armor,
            item_id,
            self.config.autodrop.protected_items.as_slice(),
        )
    }
}

} // verus!
