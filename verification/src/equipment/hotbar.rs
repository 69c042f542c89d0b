//! The automatic hotbar equipment: keeps the best sword, pickaxe, axe and
//! shovel, the most preferred building block, a water bucket and any
//! configured utility items in their configured hotbar slots.
//!
//! Re-evaluation is event-driven: the inventory revision only changes when
//! slot contents do, so a tick that sees the revision it last evaluated
//! does nothing unless the periodic fallback scan is due.
use vstd::prelude::*;
use crate::config::{AutoDropConfig, HotbarEquipmentConfig, ToolEquipmentConfig};
use crate::equipment::autodrop::{is_protected, should_drop};
use crate::equipment::manager::{text_of, value_of};
use crate::equipment::model::{EquipmentItem, HOTBAR_PROTOCOL_SLOTS_START};
use crate::equipment::tool_selection::ToolCategory;
use crate::equipment::tools::{best_candidate, is_best_tool, is_of, item_tier, should_replace, tool_replaces};
use crate::text::str_equal;

verus! {

/// The protocol slot of in-game hotbar slot `slot_number` (1-9 as shown
/// in game); 0 is treated as 1.
pub fn protocol_slot(slot_number: u8) -> (slot: usize)
    ensures
        slot == HOTBAR_PROTOCOL_SLOTS_START + (if slot_number == 0 { 0 } else { slot_number - 1 }),
{
    let offset: u8 = if slot_number == 0 { 0 } else { slot_number - 1 };
    HOTBAR_PROTOCOL_SLOTS_START + offset as usize
}

/// The water bucket's item id.
pub const WATER_BUCKET_ID: &'static str = "minecraft:water_bucket";

/// Which autodrop settings a displaced hotbar item falls under.
#[derive(Clone, Copy, Debug, PartialEq, Eq, Structural)]
pub enum AutoDropGroup {
    Tools,
    Weapons,
}

/// A hotbar replacement: the item from `source` goes to hotbar `target`.
#[derive(Clone, Debug, PartialEq, Eq)]
pub struct HotbarSwap {
    pub source: usize,
    pub target: usize,
    pub item_id: String,
    /// The id of what the target slot held, if anything.
    pub displaced: Option<String>,
}

/// The automatic hotbar equipment's settings and scan bookkeeping.
#[derive(Clone, Debug)]
pub struct HotbarEquipmentService {
    pub hotbar: HotbarEquipmentConfig,
    pub tools: ToolEquipmentConfig,
    pub autodrop: AutoDropConfig,
    /// The inventory revision last evaluated.
    pub last_seen_revision: Option<u64>,
    /// When the last evaluation ran, in milliseconds.
    pub last_scan_at: Option<u64>,
}

/// The first inventory entry in protocol slot `slot`.
pub open spec fn entry_at(inventory: Seq<EquipmentItem>, slot: int) -> Option<EquipmentItem>
    decreases inventory.len(),
{
    if inventory.len() == 0 {
        None
    } else if inventory[0].slot == slot {
        Some(inventory[0])
    } else {
        entry_at(inventory.drop_first(), slot)
    }
}

/// The first inventory entry holding `id` outside protocol slot `slot`.
pub open spec fn source_outside(inventory: Seq<EquipmentItem>, id: Seq<char>, slot: int) -> Option<EquipmentItem>
    decreases inventory.len(),
{
    if inventory.len() == 0 {
        None
    } else if inventory[0].item_id@ == id && inventory[0].slot != slot {
        Some(inventory[0])
    } else {
        source_outside(inventory.drop_first(), id, slot)
    }
}

/// The inventory entry that is the best tool of `wanted`, if any.
pub open spec fn best_tool_entry(mode: crate::config::ToolRankingMode, wanted: ToolCategory, inventory: Seq<EquipmentItem>) -> Option<int> {
    if exists|i: int| is_best_tool(mode, wanted, inventory, i) {
        Some(choose|i: int| is_best_tool(mode, wanted, inventory, i))
    } else {
        None
    }
}

proof fn lemma_best_tool_unique(mode: crate::config::ToolRankingMode, wanted: ToolCategory, inventory: Seq<EquipmentItem>, i: int, j: int)
    requires
        is_best_tool(mode, wanted, inventory, i),
        is_best_tool(mode, wanted, inventory, j),
    ensures
        i == j,
{
}

/// The slot a configured hotbar slot number names.
pub open spec fn hotbar_slot(slot_number: u8) -> int {
    HOTBAR_PROTOCOL_SLOTS_START + (if slot_number == 0 { 0 } else { slot_number - 1 })
}

fn find_at(inventory: &[EquipmentItem], slot: usize) -> (r: Option<&EquipmentItem>)
    ensures
        value_of(r) == entry_at(inventory@, slot as int),
{
    let mut i: usize = 0;
    assert(inventory@.subrange(0, inventory@.len() as int) =~= inventory@);
    while i < inventory.len()
        invariant
            i <= inventory@.len(),
            entry_at(inventory@, slot as int) == entry_at(inventory@.subrange(i as int, inventory@.len() as int), slot as int),
        decreases inventory@.len() - i,
    {
        let ghost rest = inventory@.subrange(i as int, inventory@.len() as int);
        assert(rest.drop_first() =~= inventory@.subrange(i + 1, inventory@.len() as int));
        if inventory[i].slot == slot {
            return Some(&inventory[i]);
        }
        i = i + 1;
    }
    None
}

fn find_source<'a>(inventory: &'a [EquipmentItem], id: &str, slot: usize) -> (r: Option<&'a EquipmentItem>)
    ensures
        value_of(r) == source_outside(inventory@, id@, slot as int),
{
    let mut i: usize = 0;
    assert(inventory@.subrange(0, inventory@.len() as int) =~= inventory@);
    while i < inventory.len()
        invariant
            i <= inventory@.len(),
            source_outside(inventory@, id@, slot as int) == source_outside(inventory@.subrange(i as int, inventory@.len() as int), id@, slot as int),
        decreases inventory@.len() - i,
    {
        let ghost rest = inventory@.subrange(i as int, inventory@.len() as int);
        assert(rest.drop_first() =~= inventory@.subrange(i + 1, inventory@.len() as int));
        if str_equal(inventory[i].item_id.as_str(), id) && inventory[i].slot != slot {
            return Some(&inventory[i]);
        }
        i = i + 1;
    }
    None
}

impl HotbarEquipmentService {
    /// A service that has evaluated nothing yet.
    pub fn new(hotbar: HotbarEquipmentConfig, tools: ToolEquipmentConfig, autodrop: AutoDropConfig) -> (s: Self)
        ensures
            s.hotbar == hotbar,
            s.tools == tools,
            s.autodrop == autodrop,
            s.last_seen_revision is None,
            s.last_scan_at is None,
    {
        HotbarEquipmentService { hotbar, tools, autodrop, last_seen_revision: None, last_scan_at: None }
    }

    /// Whether to evaluate the hotbar this tick, at `now` milliseconds:
    /// never while disabled, out of the world or without an inventory;
    /// otherwise when the inventory revision changed or the periodic scan
    /// is due -- and then the revision and time are recorded.
    pub fn scan_due(&mut self, joined_world: bool, inventory_available: bool, revision: u64, now: u64) -> (due: bool)
        ensures
            due == (old(self).hotbar.enabled && joined_world && inventory_available && (old(self).last_seen_revision != Some(revision)
                || match old(self).last_scan_at {
                    None => true,
                    Some(at) => now >= at && now - at >= old(self).hotbar.periodic_scan_seconds * 1000,
                })),
            due ==> final(self).last_seen_revision == Some(revision) && final(self).last_scan_at == Some(now),
            !due ==> final(self).last_seen_revision == old(self).last_seen_revision && final(self).last_scan_at == old(self).last_scan_at,
            final(self).hotbar == old(self).hotbar,
            final(self).tools == old(self).tools,
            final(self).autodrop == old(self).autodrop,
    {
        if !self.hotbar.enabled || !joined_world || !inventory_available {
            return false;
        }
        let due = self.last_seen_revision != Some(revision) || match self.last_scan_at {
            None => true,
            Some(at) => {
                let period = self.hotbar.periodic_scan_seconds as u128 * 1000;
                now >= at && (now - at) as u128 >= period
            },
        };
        if due {
            self.last_seen_revision = Some(revision);
            self.last_scan_at = Some(now);
        }
        due
    }

    /// The replacement for tool `category` kept in hotbar slot
    /// `slot_number`: the best tool of the category under the ranking
    /// mode, unless it already sits there or is not enough of an
    /// improvement over what does.
    pub fn tool_swap(&self, category: ToolCategory, slot_number: Option<u8>, inventory: &[EquipmentItem]) -> (r: Option<HotbarSwap>)
        ensures
            match slot_number {
                None => r is None,
                Some(n) => {
                    let target = hotbar_slot(n);
                    let held = entry_at(inventory@, target);
                    match best_tool_entry(self.tools.ranking_mode, category, inventory@) {
                        None => r is None,
                        Some(i) => if inventory@[i].slot == target
                            || !tool_replaces(self.tools.ranking_mode, held, inventory@[i], item_tier(inventory@[i].item_id@)) {
                            r is None
                        } else {
                            r is Some && r->0.source == inventory@[i].slot && r->0.target == target
                                && r->0.item_id@ == inventory@[i].item_id@
                                && text_of(r->0.displaced) == match held {
                                    Some(h) => Some(h.item_id@),
                                    None => None,
                                }
                        },
                    }
                },
            },
    {
        let n = match slot_number {
            Some(n) => n,
            None => return None,
        };
        let target = protocol_slot(n);
        let held = find_at(inventory, target);
        let mode = self.tools.ranking_mode;
        let candidate = match best_candidate(mode, category, inventory) {
            Some(c) => c,
            None => {
                assert(!exists|i: int| is_best_tool(mode, category, inventory@, i));
                assert(best_tool_entry(mode, category, inventory@) is None);
                return None;
            },
        };
        let ghost i = choose|i: int| is_best_tool(mode, category, inventory@, i) && *candidate.item == inventory@[i]
            && candidate.tier == item_tier(inventory@[i].item_id@);
        proof {
            let k = choose|k: int| is_best_tool(mode, category, inventory@, k);
            lemma_best_tool_unique(mode, category, inventory@, i, k);
        }
        if candidate.item.slot == target {
            return None;
        }
        if !should_replace(mode, held, candidate) {
            return None;
        }
        Some(HotbarSwap {
            source: candidate.item.slot,
            target,
            item_id: candidate.item.item_id.clone(),
            displaced: match held {
                Some(h) => Some(h.item_id.clone()),
                None => None,
            },
        })
    }

    /// The source slot that stocks building block `best_id` (the most
    /// preferred block held) into hotbar slot `slot_number`, unless the
    /// entry in that slot already holds it.
    pub fn block_swap(&self, slot_number: Option<u8>, best_id: &str, inventory: &[EquipmentItem]) -> (r: Option<usize>)
        ensures
            match slot_number {
                None => r is None,
                Some(n) => {
                    let target = hotbar_slot(n);
                    if entry_at(inventory@, target) is Some && entry_at(inventory@, target)->0.item_id@ == best_id@ {
                        r is None
                    } else {
                        match source_outside(inventory@, best_id@, target) {
                            None => r is None,
                            Some(source) => r == Some(source.slot),
                        }
                    }
                },
            },
    {
        let n = match slot_number {
            Some(n) => n,
            None => return None,
        };
        let target = protocol_slot(n);
        let equipped = match find_at(inventory, target) {
            Some(item) => str_equal(item.item_id.as_str(), best_id),
            None => false,
        };
        if equipped {
            return None;
        }
        match find_source(inventory, best_id, target) {
            Some(source) => Some(source.slot),
            None => None,
        }
    }

    /// The source slot that stocks exactly `item_id` into hotbar slot
    /// `slot_number`, unless some entry in that slot already holds it.
    pub fn stock_swap(&self, item_id: &str, slot_number: Option<u8>, inventory: &[EquipmentItem]) -> (r: Option<usize>)
        ensures
            match slot_number {
                None => r is None,
                Some(n) => {
                    let target = hotbar_slot(n);
                    if exists|j: int| 0 <= j < inventory@.len() && inventory@[j].slot == target && inventory@[j].item_id@ == item_id@ {
                        r is None
                    } else {
                        match source_outside(inventory@, item_id@, target) {
                            None => r is None,
                            Some(source) => r == Some(source.slot),
                        }
                    }
                },
            },
    {
        let n = match slot_number {
            Some(n) => n,
            None => return None,
        };
        let target = protocol_slot(n);
        let mut i: usize = 0;
        while i < inventory.len()
            invariant
                i <= inventory@.len(),
                forall|j: int| 0 <= j < i ==> !(inventory@[j].slot == target && inventory@[j].item_id@ == item_id@),
                slot_number == Some(n),
                target == hotbar_slot(n),
            decreases inventory@.len() - i,
        {
            if inventory[i].slot == target && str_equal(inventory[i].item_id.as_str(), item_id) {
                assert(0 <= i < inventory@.len() && inventory@[i as int].slot == target && inventory@[i as int].item_id@ == item_id@);
                return None;
            }
            i = i + 1;
        }
        match find_source(inventory, item_id, target) {
            Some(source) => Some(source.slot),
            None => None,
        }
    }

    /// Whether a displaced item of `group` should be dropped, per the
    /// autodrop settings.
    pub fn drops_displaced(&self, group: AutoDropGroup, item_id: &str) -> (r: bool)
        ensures
            r == (self.autodrop.enabled && match group {
                AutoDropGroup::Tools => self.autodrop.tools.enabled && self.autodrop.tools.drop_when_better_available,
                AutoDropGroup::Weapons => self.autodrop.weapons.enabled && self.autodrop.weapons.drop_when_better_available,
            } && !is_protected(item_id@, self.autodrop.protected_items@)),
    {
        let category = match group {
            AutoDropGroup::Tools => &self.autodrop.tools,
            AutoDropGroup::Weapons => &self.autodrop.weapons,
        };
        should_drop(self.autodrop.enabled, category, item_id, self.autodrop.protected_items.as_slice())
    }
}

} // verus!
