//! What a sequence of menu clicks does to one item: a model of the
//! server's pickup clicks, kept to the cases a transfer plan uses.
use vstd::prelude::*;
use crate::container::model::{ClickButton, InventoryClick, MenuSnapshot, StackSnapshot, TransferDirection};
use crate::container::planner::holds_item;

verus! {

/// One click applied to `held` (how many of the item each slot holds)
/// and `cursor` (how many the cursor carries). A left click with an empty
/// cursor picks the slot's stack up; with a loaded cursor it puts down as
/// many as the slot has room for under the stack size `max`. A right click
/// with a loaded cursor puts one down where there is room; with an empty
/// cursor it picks up the larger half. `None` for a click this model does
/// not cover: one past the menu, or on a slot holding another item.
pub open spec fn click_effect(held: Seq<int>, cursor: int, foreign: Seq<bool>, max: int, click: InventoryClick) -> Option<(Seq<int>, int)> {
    let s = click.slot as int;
    if s >= held.len() || s >= foreign.len() || foreign[s] {
        None
    } else {
        match click.button {
            ClickButton::Left => if cursor == 0 {
                Some((held.update(s, 0), held[s]))
            } else {
                let room = max - held[s];
                let moved = if cursor <= room { cursor } else if room > 0 { room } else { 0 };
                Some((held.update(s, held[s] + moved), cursor - moved))
            },
            ClickButton::Right => if cursor == 0 {
                Some((held.update(s, held[s] / 2), held[s] - held[s] / 2))
            } else if held[s] < max {
                Some((held.update(s, held[s] + 1), cursor - 1))
            } else {
                Some((held, cursor))
            },
        }
    }
}

/// The clicks applied in order, starting from `held` and `cursor`.
pub open spec fn apply_clicks(held: Seq<int>, cursor: int, foreign: Seq<bool>, max: int, clicks: Seq<InventoryClick>) -> Option<(Seq<int>, int)>
    decreases clicks.len(),
{
    if clicks.len() == 0 {
        Some((held, cursor))
    } else {
        match apply_clicks(held, cursor, foreign, max, clicks.drop_last()) {
            Some((h, c)) => click_effect(h, c, foreign, max, clicks.last()),
            None => None,
        }
    }
}

/// How many of `item` a slot holds.
pub open spec fn held_in(slot: Option<StackSnapshot>, item: Seq<char>) -> int {
    if holds_item(slot, item) {
        slot->0.count as int
    } else {
        0
    }
}

/// The menu's protocol slots: container slots, then player slots.
pub open spec fn menu_slots(menu: MenuSnapshot) -> Seq<Option<StackSnapshot>> {
    menu.container_slots@ + menu.player_slots@
}

/// How many of `item` each protocol slot holds.
pub open spec fn menu_held(menu: MenuSnapshot, item: Seq<char>) -> Seq<int> {
    Seq::new(menu_slots(menu).len(), |i: int| held_in(menu_slots(menu)[i], item))
}

/// Which protocol slots hold some other item.
pub open spec fn menu_foreign(menu: MenuSnapshot, item: Seq<char>) -> Seq<bool> {
    Seq::new(menu_slots(menu).len(), |i: int| menu_slots(menu)[i] is Some && !holds_item(menu_slots(menu)[i], item))
}

/// Every stack of `item` in the menu has stack size `max` and holds no
/// more than that.
pub open spec fn uniform_stacks(menu: MenuSnapshot, item: Seq<char>, max: int) -> bool {
    forall|i: int| 0 <= i < menu_slots(menu).len() && holds_item(#[trigger] menu_slots(menu)[i], item)
        ==> menu_slots(menu)[i]->0.max_count == max && menu_slots(menu)[i]->0.count <= max
}

/// The sum of `held` over the slots `lo..hi`.
pub open spec fn range_total(held: Seq<int>, lo: int, hi: int) -> int
    decreases hi - lo,
{
    if hi <= lo {
        0
    } else {
        held[lo] + range_total(held, lo + 1, hi)
    }
}

/// The first protocol slot of the side items leave in `direction`.
pub open spec fn source_start(menu: MenuSnapshot, direction: TransferDirection) -> int {
    match direction {
        TransferDirection::Take => 0,
        TransferDirection::Store => menu.container_slots@.len() as int,
    }
}

/// The first protocol slot of the side items arrive in `direction`.
pub open spec fn destination_start(menu: MenuSnapshot, direction: TransferDirection) -> int {
    match direction {
        TransferDirection::Take => menu.container_slots@.len() as int,
        TransferDirection::Store => 0,
    }
}

/// How many slots the side items leave from has in `direction`.
pub open spec fn source_len(menu: MenuSnapshot, direction: TransferDirection) -> int {
    match direction {
        TransferDirection::Take => menu.container_slots@.len() as int,
        TransferDirection::Store => menu.player_slots@.len() as int,
    }
}

/// How many slots the side items arrive in has in `direction`.
pub open spec fn destination_len(menu: MenuSnapshot, direction: TransferDirection) -> int {
    match direction {
        TransferDirection::Take => menu.player_slots@.len() as int,
        TransferDirection::Store => menu.container_slots@.len() as int,
    }
}

/// What the side items leave from holds of the item in `held`.
pub open spec fn source_total(menu: MenuSnapshot, direction: TransferDirection, held: Seq<int>) -> int {
    range_total(held, source_start(menu, direction), source_start(menu, direction) + source_len(menu, direction))
}

/// What the side items arrive in holds of the item in `held`.
pub open spec fn destination_total(menu: MenuSnapshot, direction: TransferDirection, held: Seq<int>) -> int {
    range_total(held, destination_start(menu, direction), destination_start(menu, direction) + destination_len(menu, direction))
}

/// Applying one more click is one more step from where the others left.
pub(crate) proof fn lemma_apply_push(held: Seq<int>, cursor: int, foreign: Seq<bool>, max: int, clicks: Seq<InventoryClick>, click: InventoryClick)
    ensures
        apply_clicks(held, cursor, foreign, max, clicks.push(click)) == match apply_clicks(held, cursor, foreign, max, clicks) {
            Some((h, c)) => click_effect(h, c, foreign, max, click),
            None => None,
        },
{
    assert(clicks.push(click).drop_last() =~= clicks);
}

/// Changing one slot changes a range's total by the difference when the
/// slot is inside it, and not at all otherwise.
pub(crate) proof fn lemma_range_update(held: Seq<int>, lo: int, hi: int, j: int, v: int)
    requires
        0 <= lo,
        hi <= held.len(),
        0 <= j < held.len(),
    ensures
        lo <= j < hi ==> range_total(held.update(j, v), lo, hi) == range_total(held, lo, hi) - held[j] + v,
        !(lo <= j < hi) ==> range_total(held.update(j, v), lo, hi) == range_total(held, lo, hi),
    decreases hi - lo,
{
    if lo < hi {
        lemma_range_update(held, lo + 1, hi, j, v);
    }
}

/// A range's total of `menu_held` is what its slots hold of the item.
pub(crate) proof fn lemma_range_matches(menu: MenuSnapshot, item: Seq<char>, lo: int, hi: int)
    requires
        0 <= lo <= hi <= menu_slots(menu).len(),
    ensures
        range_total(menu_held(menu, item), lo, hi) == crate::container::planner::matching_total(menu_slots(menu).subrange(lo, hi), item),
    decreases hi - lo,
{
    if lo < hi {
        lemma_range_matches(menu, item, lo + 1, hi);
        assert(menu_slots(menu).subrange(lo, hi).drop_first() =~= menu_slots(menu).subrange(lo + 1, hi));
    }
}

/// The two sides of a transfer are the menu's container and player slots.
pub(crate) proof fn lemma_sides(menu: MenuSnapshot, direction: TransferDirection)
    ensures
        menu_slots(menu).subrange(source_start(menu, direction), source_start(menu, direction) + source_len(menu, direction))
            =~= crate::container::planner::sources_of(menu, direction),
        menu_slots(menu).subrange(destination_start(menu, direction), destination_start(menu, direction) + destination_len(menu, direction))
            =~= crate::container::planner::destinations_of(menu, direction),
{
    let c = menu.container_slots@.len() as int;
    let p = menu.player_slots@.len() as int;
    assert(menu_slots(menu).subrange(0, c) =~= menu.container_slots@);
    assert(menu_slots(menu).subrange(c, c + p) =~= menu.player_slots@);
}

/// `n` right clicks on `slot`.
pub open spec fn right_clicks(slot: usize, n: nat) -> Seq<InventoryClick> {
    Seq::new(n, |_i: int| InventoryClick { slot, button: ClickButton::Right })
}

/// `n` right clicks from a loaded cursor put `n` down on a slot with room.
pub(crate) proof fn lemma_apply_rights(
    held: Seq<int>,
    cursor: int,
    foreign: Seq<bool>,
    max: int,
    clicks: Seq<InventoryClick>,
    h: Seq<int>,
    c: int,
    slot: usize,
    n: nat,
)
    requires
        apply_clicks(held, cursor, foreign, max, clicks) == Some((h, c)),
        (slot as int) < h.len(),
        (slot as int) < foreign.len(),
        !foreign[slot as int],
        n <= c,
        h[slot as int] + n <= max,
    ensures
        apply_clicks(held, cursor, foreign, max, clicks + right_clicks(slot, n))
            == Some((h.update(slot as int, h[slot as int] + n), c - n)),
    decreases n,
{
    let s = slot as int;
    if n == 0 {
        assert(clicks + right_clicks(slot, 0) =~= clicks);
        assert(h.update(s, h[s] + 0) =~= h);
    } else {
        let k = (n - 1) as nat;
        lemma_apply_rights(held, cursor, foreign, max, clicks, h, c, slot, k);
        let click = InventoryClick { slot, button: ClickButton::Right };
        assert(clicks + right_clicks(slot, n) =~= (clicks + right_clicks(slot, k)).push(click));
        lemma_apply_push(held, cursor, foreign, max, clicks + right_clicks(slot, k), click);
        assert(h.update(s, h[s] + k).update(s, h.update(s, h[s] + k)[s] + 1) =~= h.update(s, h[s] + n));
    }
}

} // verus!
