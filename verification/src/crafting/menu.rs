//! The live crafting menu as protocol slots: which slot to take an
//! ingredient from and where a crafted item can be put.
use vstd::prelude::*;
use crate::container::model::StackSnapshot;
use crate::text::str_equal;

verus! {

/// Whichever menu is active (the player inventory or a crafting table),
/// by protocol slot number.
#[derive(Clone, Debug)]
pub struct CraftingMenuSnapshot {
    pub window_id: i32,
    pub revision: u32,
    pub result_slot: usize,
    /// The slots of the player's own inventory, in search order.
    pub inventory_slots: Vec<usize>,
    pub slots: Vec<Option<StackSnapshot>>,
    /// The item and count in the result slot, if any.
    pub result: Option<(String, u32)>,
}

/// Whether `slot` holds at least one `item`.
pub open spec fn holds_some(slot: Option<StackSnapshot>, item: Seq<char>) -> bool {
    slot is Some && slot->0.item_id@ == item && slot->0.count > 0
}

/// Whether `slot` holds a stack of `item` with room for more.
pub open spec fn has_room(slot: Option<StackSnapshot>, item: Seq<char>) -> bool {
    slot is Some && slot->0.item_id@ == item && slot->0.count < slot->0.max_count
}

/// What a slot search looks for.
pub enum SlotWanted {
    /// At least one of the item.
    Holding,
    /// A stack of the item with room for more.
    Room,
    /// Nothing at all.
    Empty,
}

/// Whether `slot` is what `wanted` looks for, for `item`.
pub open spec fn slot_matches(slot: Option<StackSnapshot>, item: Seq<char>, wanted: SlotWanted) -> bool {
    match wanted {
        SlotWanted::Holding => holds_some(slot, item),
        SlotWanted::Room => has_room(slot, item),
        SlotWanted::Empty => slot is None,
    }
}

/// The first of `indices` whose slot is what `wanted` looks for.
pub open spec fn first_slot_where(
    indices: Seq<usize>,
    slots: Seq<Option<StackSnapshot>>,
    item: Seq<char>,
    wanted: SlotWanted,
) -> Option<usize>
    decreases indices.len(),
{
    if indices.len() == 0 {
        None
    } else if slot_matches(slots[indices[0] as int], item, wanted) {
        Some(indices[0])
    } else {
        first_slot_where(indices.drop_first(), slots, item, wanted)
    }
}

/// Why a crafted output cannot be taken.
#[derive(Clone, Copy, Debug, PartialEq, Eq, Structural)]
pub enum OutputRefusal {
    /// The result slot does not hold the expected item.
    WrongResult,
    /// No inventory slot can take it.
    NoSpace,
}

impl CraftingMenuSnapshot {
    /// Every inventory slot names a slot of the menu.
    pub open spec fn well_formed(&self) -> bool {
        forall|k: int| 0 <= k < self.inventory_slots@.len() ==> (#[trigger] self.inventory_slots@[k]) < self.slots@.len()
    }

    /// The first inventory slot holding at least one `item`.
    pub fn find_item_slot(&self, item: &str) -> (r: Option<usize>)
        requires
            self.well_formed(),
        ensures
            r == first_slot_where(self.inventory_slots@, self.slots@, item@, SlotWanted::Holding),
    {
        let mut i: usize = 0;
        assert(self.inventory_slots@.subrange(0, self.inventory_slots@.len() as int) =~= self.inventory_slots@);
        while i < self.inventory_slots.len()
            invariant
                i <= self.inventory_slots@.len(),
                self.well_formed(),
                first_slot_where(self.inventory_slots@, self.slots@, item@, SlotWanted::Holding)
                    == first_slot_where(self.inventory_slots@.subrange(i as int, self.inventory_slots@.len() as int), self.slots@, item@, SlotWanted::Holding),
            decreases self.inventory_slots@.len() - i,
        {
            let ghost rest = self.inventory_slots@.subrange(i as int, self.inventory_slots@.len() as int);
            assert(rest.drop_first() =~= self.inventory_slots@.subrange(i + 1, self.inventory_slots@.len() as int));
            let index = self.inventory_slots[i];
            assert(index == rest[0]);
            let found = match &self.slots[index] {
                Some(stack) => str_equal(stack.item_id.as_str(), item) && stack.count > 0,
                None => false,
            };
            assert(found == slot_matches(self.slots@[index as int], item@, SlotWanted::Holding));
            if found {
                return Some(index);
            }
            i = i + 1;
        }
        None
    }

    /// Where a crafted `item` can go: the first inventory slot holding a
    /// stack of it with room, else the first empty inventory slot.
    pub fn find_destination_slot(&self, item: &str) -> (r: Option<usize>)
        requires
            self.well_formed(),
        ensures
            r == match first_slot_where(self.inventory_slots@, self.slots@, item@, SlotWanted::Room) {
                Some(found) => Some(found),
                None => first_slot_where(self.inventory_slots@, self.slots@, item@, SlotWanted::Empty),
            },
    {
        let mut i: usize = 0;
        assert(self.inventory_slots@.subrange(0, self.inventory_slots@.len() as int) =~= self.inventory_slots@);
        while i < self.inventory_slots.len()
            invariant
                i <= self.inventory_slots@.len(),
                self.well_formed(),
                first_slot_where(self.inventory_slots@, self.slots@, item@, SlotWanted::Room)
                    == first_slot_where(self.inventory_slots@.subrange(i as int, self.inventory_slots@.len() as int), self.slots@, item@, SlotWanted::Room),
            decreases self.inventory_slots@.len() - i,
        {
            let ghost rest = self.inventory_slots@.subrange(i as int, self.inventory_slots@.len() as int);
            assert(rest.drop_first() =~= self.inventory_slots@.subrange(i + 1, self.inventory_slots@.len() as int));
            let index = self.inventory_slots[i];
            assert(index == rest[0]);
            let found = match &self.slots[index] {
                Some(stack) => str_equal(stack.item_id.as_str(), item) && stack.count < stack.max_count,
                None => false,
            };
            assert(found == slot_matches(self.slots@[index as int], item@, SlotWanted::Room));
            if found {
                return Some(index);
            }
            i = i + 1;
        }
        assert(self.inventory_slots@.subrange(i as int, self.inventory_slots@.len() as int).len() == 0);
        let mut j: usize = 0;
        assert(self.inventory_slots@.subrange(0, self.inventory_slots@.len() as int) =~= self.inventory_slots@);
        while j < self.inventory_slots.len()
            invariant
                j <= self.inventory_slots@.len(),
                self.well_formed(),
                first_slot_where(self.inventory_slots@, self.slots@, item@, SlotWanted::Room) is None,
                first_slot_where(self.inventory_slots@, self.slots@, item@, SlotWanted::Empty)
                    == first_slot_where(self.inventory_slots@.subrange(j as int, self.inventory_slots@.len() as int), self.slots@, item@, SlotWanted::Empty),
            decreases self.inventory_slots@.len() - j,
        {
            let ghost rest = self.inventory_slots@.subrange(j as int, self.inventory_slots@.len() as int);
            assert(rest.drop_first() =~= self.inventory_slots@.subrange(j + 1, self.inventory_slots@.len() as int));
            let index = self.inventory_slots[j];
            assert(index == rest[0]);
            if self.slots[index].is_none() {
                return Some(index);
            }
            j = j + 1;
        }
        assert(self.inventory_slots@.subrange(j as int, self.inventory_slots@.len() as int).len() == 0);
        None
    }

    /// Where to put the crafted `output_item` after taking it from the
    /// result slot: refused when the result slot holds something else (or
    /// nothing), or when no inventory slot can take it.
    pub fn output_destination(&self, output_item: &str) -> (r: Result<usize, OutputRefusal>)
        requires
            self.well_formed(),
        ensures
            !(self.result matches Some((id, _)) && id@ == output_item@) ==> r == Err::<usize, OutputRefusal>(OutputRefusal::WrongResult),
            self.result matches Some((id, _)) && id@ == output_item@ ==> r == match first_slot_where(self.inventory_slots@, self.slots@, output_item@, SlotWanted::Room) {
                Some(found) => Ok(found),
                None => match first_slot_where(self.inventory_slots@, self.slots@, output_item@, SlotWanted::Empty) {
                    Some(found) => Ok(found),
                    None => Err(OutputRefusal::NoSpace),
                },
            },
    {
        let produced = match &self.result {
            Some((id, _)) => str_equal(id.as_str(), output_item),
            None => false,
        };
        if !produced {
            return Err(OutputRefusal::WrongResult);
        }
        match self.find_destination_slot(output_item) {
            Some(slot) => Ok(slot),
            None => Err(OutputRefusal::NoSpace),
        }
    }
}

} // verus!
