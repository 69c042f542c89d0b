//! Transfer planning: the clicks that move `count` of an item between a
//! chest and the player's inventory. Slot numbers are protocol menu slots:
//! container slots first, then the player's inventory slots.
use vstd::prelude::*;
use crate::container::model::{ClickButton, InventoryClick, MenuSnapshot, StackSnapshot, TransferDirection, TransferPlan};
use crate::text::str_equal;
use crate::container::clicks::{
    apply_clicks, destination_total, lemma_apply_push, lemma_apply_rights, lemma_range_matches, lemma_range_update, lemma_sides, menu_foreign,
    menu_held, menu_slots, range_total, right_clicks, source_total, uniform_stacks, source_start, destination_start,
};

verus! {

/// Why no transfer could be planned.
#[derive(Clone, Copy, Debug, PartialEq, Eq, Structural)]
pub enum PlanError {
    ItemNotFound,
    DestinationFull,
    PartialOnly { available: u32 },
    InvalidCount,
}

/// Whether `slot` holds a stack of `item`.
pub open spec fn holds_item(slot: Option<StackSnapshot>, item: Seq<char>) -> bool {
    slot is Some && slot->0.item_id@ == item
}

/// How many of `item` the slots hold in all.
pub open spec fn matching_total(slots: Seq<Option<StackSnapshot>>, item: Seq<char>) -> int
    decreases slots.len(),
{
    if slots.len() == 0 {
        0
    } else {
        (if holds_item(slots[0], item) { slots[0]->0.count as int } else { 0 }) + matching_total(slots.drop_first(), item)
    }
}

/// The stack size of `item`: the maximum of its first stack, else 64.
pub open spec fn item_max_of(slots: Seq<Option<StackSnapshot>>, item: Seq<char>) -> u32
    decreases slots.len(),
{
    if slots.len() == 0 {
        64
    } else if holds_item(slots[0], item) {
        slots[0]->0.max_count
    } else {
        item_max_of(slots.drop_first(), item)
    }
}

/// How many of `item` a destination slot can still take.
pub open spec fn slot_capacity(slot: Option<StackSnapshot>, item: Seq<char>, item_max: u32) -> u32 {
    match slot {
        None => item_max,
        Some(s) => if s.item_id@ == item {
            if s.max_count >= s.count { (s.max_count - s.count) as u32 } else { 0 }
        } else {
            0
        },
    }
}

/// How many of `item` the destination slots can take in all.
pub open spec fn total_capacity(slots: Seq<Option<StackSnapshot>>, item: Seq<char>, item_max: u32) -> int
    decreases slots.len(),
{
    if slots.len() == 0 {
        0
    } else {
        slot_capacity(slots[0], item, item_max) + total_capacity(slots.drop_first(), item, item_max)
    }
}

/// The sum of a sequence of capacities.
pub open spec fn sum_of(v: Seq<u32>) -> int
    decreases v.len(),
{
    if v.len() == 0 {
        0
    } else {
        v[0] + sum_of(v.drop_first())
    }
}

/// The source slots of a transfer in `direction`.
pub open spec fn sources_of(menu: MenuSnapshot, direction: TransferDirection) -> Seq<Option<StackSnapshot>> {
    match direction {
        TransferDirection::Take => menu.container_slots@,
        TransferDirection::Store => menu.player_slots@,
    }
}

/// The destination slots of a transfer in `direction`.
pub open spec fn destinations_of(menu: MenuSnapshot, direction: TransferDirection) -> Seq<Option<StackSnapshot>> {
    match direction {
        TransferDirection::Take => menu.player_slots@,
        TransferDirection::Store => menu.container_slots@,
    }
}

/// How many of `item` the sources hold.
pub open spec fn available_of(menu: MenuSnapshot, direction: TransferDirection, item: Seq<char>) -> int {
    matching_total(sources_of(menu, direction), item)
}

/// How many of `item` the destinations can take.
pub open spec fn capacity_of(menu: MenuSnapshot, direction: TransferDirection, item: Seq<char>) -> int {
    total_capacity(destinations_of(menu, direction), item, item_max_of(sources_of(menu, direction), item))
}

/// The amount a transfer of `count` can actually move.
pub open spec fn feasible_of(menu: MenuSnapshot, direction: TransferDirection, item: Seq<char>, count: u32) -> int {
    let a = available_of(menu, direction, item);
    let c = capacity_of(menu, direction, item);
    let m = if a < count { a } else { count as int };
    if c < m { c } else { m }
}

proof fn lemma_sum_update(v: Seq<u32>, i: int, x: u32)
    requires
        0 <= i < v.len(),
    ensures
        sum_of(v.update(i, x)) == sum_of(v) - v[i] + x,
    decreases v.len(),
{
    if i == 0 {
        assert(v.update(i, x).drop_first() =~= v.drop_first());
    } else {
        assert(v.update(i, x).drop_first() =~= v.drop_first().update(i - 1, x));
        lemma_sum_update(v.drop_first(), i - 1, x);
    }
}

proof fn lemma_positive_sum_has_positive(v: Seq<u32>)
    requires
        sum_of(v) > 0,
    ensures
        exists|i: int| 0 <= i < v.len() && v[i] > 0,
    decreases v.len(),
{
    if v[0] == 0 {
        lemma_positive_sum_has_positive(v.drop_first());
        let i = choose|i: int| 0 <= i < v.drop_first().len() && v.drop_first()[i] > 0;
        assert(v[i + 1] > 0);
    }
}

proof fn lemma_sum_nonneg(v: Seq<u32>)
    ensures
        sum_of(v) >= 0,
    decreases v.len(),
{
    if v.len() > 0 {
        lemma_sum_nonneg(v.drop_first());
    }
}

fn count_of_item(slots: &Vec<Option<StackSnapshot>>, item: &str) -> (total: u32)
    requires
        matching_total(slots@, item@) <= u32::MAX,
    ensures
        total == matching_total(slots@, item@),
{
    let mut total: u32 = 0;
    let mut i: usize = slots.len();
    assert(slots@.subrange(slots@.len() as int, slots@.len() as int) =~= Seq::<Option<StackSnapshot>>::empty());
    while i > 0
        invariant
            i <= slots.len(),
            total == matching_total(slots@.subrange(i as int, slots@.len() as int), item@),
            matching_total(slots@, item@) <= u32::MAX,
        decreases i,
    {
        let ghost tail = slots@.subrange(i as int, slots@.len() as int);
        i = i - 1;
        let ghost longer = slots@.subrange(i as int, slots@.len() as int);
        assert(longer.drop_first() =~= tail);
        proof {
            lemma_suffix_total_bounded(slots@, i as int, item@);
        }
        match &slots[i] {
            Some(s) => {
                if str_equal(s.item_id.as_str(), item) {
                    total = total + s.count;
                }
            },
            None => {},
        }
    }
    assert(slots@.subrange(0, slots@.len() as int) =~= slots@);
    total
}

proof fn lemma_total_nonneg(s: Seq<Option<StackSnapshot>>, item: Seq<char>)
    ensures
        matching_total(s, item) >= 0,
    decreases s.len(),
{
    if s.len() > 0 {
        lemma_total_nonneg(s.drop_first(), item);
    }
}

proof fn lemma_suffix_total_bounded(s: Seq<Option<StackSnapshot>>, i: int, item: Seq<char>)
    requires
        0 <= i <= s.len(),
    ensures
        matching_total(s.subrange(i, s.len() as int), item) <= matching_total(s, item),
    decreases i,
{
    if i > 0 {
        lemma_suffix_total_bounded(s.drop_first(), i - 1, item);
        assert(s.drop_first().subrange(i - 1, s.drop_first().len() as int) =~= s.subrange(i, s.len() as int));
        if holds_item(s[0], item) {
        }
    } else {
        assert(s.subrange(0, s.len() as int) =~= s);
    }
}

fn first_max(slots: &Vec<Option<StackSnapshot>>, item: &str) -> (m: u32)
    ensures
        m == item_max_of(slots@, item@),
{
    let mut i: usize = 0;
    assert(slots@.subrange(0, slots@.len() as int) =~= slots@);
    while i < slots.len()
        invariant
            i <= slots.len(),
            item_max_of(slots@.subrange(i as int, slots@.len() as int), item@) == item_max_of(slots@, item@),
        decreases slots.len() - i,
    {
        let ghost rest = slots@.subrange(i as int, slots@.len() as int);
        assert(rest.drop_first() =~= slots@.subrange(i + 1, slots@.len() as int));
        match &slots[i] {
            Some(s) => {
                if str_equal(s.item_id.as_str(), item) {
                    return s.max_count;
                }
            },
            None => {},
        }
        i = i + 1;
    }
    64
}

fn capacities(slots: &Vec<Option<StackSnapshot>>, item: &str, item_max: u32) -> (caps: Vec<u32>)
    ensures
        caps@.len() == slots@.len(),
        forall|j: int| 0 <= j < caps@.len() ==> caps@[j] == slot_capacity(slots@[j], item@, item_max),
        sum_of(caps@) == total_capacity(slots@, item@, item_max),
{
    let mut caps: Vec<u32> = Vec::new();
    let mut i: usize = 0;
    while i < slots.len()
        invariant
            i <= slots.len(),
            caps@.len() == i,
            forall|j: int| 0 <= j < i ==> caps@[j] == slot_capacity(slots@[j], item@, item_max),
        decreases slots.len() - i,
    {
        let c: u32 = match &slots[i] {
            None => item_max,
            Some(s) => if str_equal(s.item_id.as_str(), item) {
                if s.max_count >= s.count { s.max_count - s.count } else { 0 }
            } else {
                0
            },
        };
        caps.push(c);
        i = i + 1;
    }
    proof {
        lemma_caps_sum(caps@, slots@, item@, item_max);
    }
    caps
}

proof fn lemma_caps_sum(caps: Seq<u32>, slots: Seq<Option<StackSnapshot>>, item: Seq<char>, item_max: u32)
    requires
        caps.len() == slots.len(),
        forall|j: int| 0 <= j < caps.len() ==> caps[j] == slot_capacity(slots[j], item, item_max),
    ensures
        sum_of(caps) == total_capacity(slots, item, item_max),
    decreases caps.len(),
{
    if caps.len() > 0 {
        lemma_caps_sum(caps.drop_first(), slots.drop_first(), item, item_max);
    }
}

/// Whether `d` is the first destination with room left.
pub open spec fn first_open(caps: Seq<u32>, d: int) -> bool {
    0 <= d < caps.len() && caps[d] > 0 && forall|j: int| 0 <= j < d ==> caps[j] == 0
}

/// The smallest of three amounts.
pub open spec fn least(a: u32, b: u32, c: u32) -> u32 {
    let m = if a < b { a } else { b };
    if c < m { c } else { m }
}

/// The clicks that move `moving` items from `source` (holding `held`) to
/// `destination`: pick the stack up and put it all down when it all moves;
/// otherwise pick it up, put down one at a time, and put the rest back.
pub open spec fn move_clicks(source: usize, destination: usize, moving: u32, held: u32) -> Seq<InventoryClick> {
    if moving == held {
        seq![InventoryClick { slot: source, button: ClickButton::Left }, InventoryClick { slot: destination, button: ClickButton::Left }]
    } else {
        seq![InventoryClick { slot: source, button: ClickButton::Left }] + right_clicks(destination, moving as nat)
            + seq![InventoryClick { slot: source, button: ClickButton::Left }]
    }
}

/// Emptying up to `from` items from the source slot `source` (holding
/// `held`) into the first destinations with room, `remaining` still to
/// move: the capacities left, what remains to move, and the clicks.
pub open spec fn drain(source: usize, destination_start: usize, held: u32, from: u32, remaining: u32, caps: Seq<u32>)
    -> (Seq<u32>, u32, Seq<InventoryClick>)
    decreases from,
{
    if from == 0 || !(exists|d: int| first_open(caps, d)) {
        (caps, remaining, Seq::empty())
    } else {
        let d = choose|d: int| first_open(caps, d);
        let moving = least(from, caps[d], remaining);
        let clicks = move_clicks(source, (destination_start + d) as usize, moving, held);
        let caps2 = caps.update(d, (caps[d] - moving) as u32);
        if remaining - moving == 0 {
            (caps2, 0, clicks)
        } else if moving == 0 {
            (caps, remaining, Seq::empty())
        } else {
            let (c3, r3, more) = drain(source, destination_start, (held - moving) as u32, (from - moving) as u32, (remaining - moving) as u32, caps2);
            (c3, r3, clicks + more)
        }
    }
}

/// The clicks of a plan moving `remaining` items of `item` out of the
/// sources from the `i`th on, each drained in turn into the first
/// destinations with room.
pub open spec fn plan_clicks(sources: Seq<Option<StackSnapshot>>, i: int, item: Seq<char>, source_start: usize,
    destination_start: usize, remaining: u32, caps: Seq<u32>) -> Seq<InventoryClick>
    decreases sources.len() - i,
{
    if i < 0 || i >= sources.len() || remaining == 0 {
        Seq::empty()
    } else if holds_item(sources[i], item) {
        let held = sources[i]->0.count;
        let (caps2, remaining2, clicks) = drain((source_start + i) as usize, destination_start, held,
            if held < remaining { held } else { remaining }, remaining, caps);
        clicks + plan_clicks(sources, i + 1, item, source_start, destination_start, remaining2, caps2)
    } else {
        plan_clicks(sources, i + 1, item, source_start, destination_start, remaining, caps)
    }
}

/// What draining from `held`/`from` and then planning the later sources
/// comes to.
pub open spec fn drain_then_rest(sources: Seq<Option<StackSnapshot>>, i: int, item: Seq<char>, source_start: usize,
    destination_start: usize, held: u32, from: u32, remaining: u32, caps: Seq<u32>) -> Seq<InventoryClick>
{
    let (caps2, remaining2, clicks) = drain((source_start + i) as usize, destination_start, held, from, remaining, caps);
    clicks + plan_clicks(sources, i + 1, item, source_start, destination_start, remaining2, caps2)
}

/// The room each destination slot has for `item` at the start.
pub open spec fn initial_caps(menu: MenuSnapshot, direction: TransferDirection, item: Seq<char>) -> Seq<u32> {
    Seq::new(destinations_of(menu, direction).len(),
        |j: int| slot_capacity(destinations_of(menu, direction)[j], item, item_max_of(sources_of(menu, direction), item)))
}

/// One step of draining a source: the clicks it adds are [`move_clicks`]
/// for the first destination with room, and what is left to plan follows.
proof fn lemma_drain_step(sources: Seq<Option<StackSnapshot>>, i: int, item: Seq<char>, so: usize, dso: usize,
    held: u32, from: u32, remaining: u32, caps: Seq<u32>, d: int, moving: u32,
    before: Seq<InventoryClick>, after: Seq<InventoryClick>, caps_after: Seq<u32>, total: Seq<InventoryClick>)
    requires
        first_open(caps, d),
        from > 0,
        from <= remaining,
        from <= held,
        moving == least(from, caps[d], remaining),
        after == before + move_clicks((so + i) as usize, (dso + d) as usize, moving, held),
        caps_after == caps.update(d, (caps[d] - moving) as u32),
        total == before + drain_then_rest(sources, i, item, so, dso, held, from, remaining, caps),
    ensures
        remaining - moving == 0 ==> total == after + plan_clicks(sources, i + 1, item, so, dso, 0, caps_after),
        remaining - moving != 0 ==> total == after + drain_then_rest(sources, i, item, so, dso, (held - moving) as u32,
            (from - moving) as u32, (remaining - moving) as u32, caps_after),
{
    let dd = choose|x: int| first_open(caps, x);
    assert(dd == d) by {
        assert(first_open(caps, dd));
        if dd < d {
            assert(caps[dd] == 0);
        }
        if dd > d {
            assert(caps[d] == 0);
        }
    }
    let mc = move_clicks((so + i) as usize, (dso + d) as usize, moving, held);
    if remaining - moving == 0 {
        assert(total =~= after + plan_clicks(sources, i + 1, item, so, dso, 0, caps_after));
    } else {
        let rest = drain_then_rest(sources, i, item, so, dso, (held - moving) as u32, (from - moving) as u32,
            (remaining - moving) as u32, caps_after);
        assert(drain_then_rest(sources, i, item, so, dso, held, from, remaining, caps) =~= mc + rest);
        assert(total =~= after + rest);
    }
}

fn first_with_capacity(caps: &Vec<u32>) -> (r: Option<usize>)
    ensures
        r is Some ==> first_open(caps@, r->0 as int),
        r is Some ==> r->0 < caps@.len() && caps@[r->0 as int] > 0,
        r is None ==> forall|j: int| 0 <= j < caps@.len() ==> caps@[j] == 0,
{
    let mut i: usize = 0;
    while i < caps.len()
        invariant
            i <= caps.len(),
            forall|j: int| 0 <= j < i ==> caps@[j] == 0,
        decreases caps.len() - i,
    {
        if caps[i] > 0 {
            return Some(i);
        }
        i = i + 1;
    }
    None
}

/// Plans the clicks for moving `count` of `item` in `direction`.
///
/// Fails with `InvalidCount` for a zero count, `ItemNotFound` when the
/// sources hold none, `DestinationFull` when the destinations can take
/// none, and `PartialOnly` (carrying what could move) when less than
/// `count` can move and partial transfers are not allowed. Otherwise the
/// plan moves exactly that feasible amount -- all of `count` when
/// possible -- through clicks on real menu slots: the sources are drained
/// in order, each into the first destinations with room ([`plan_clicks`]),
/// a whole stack by picking it up and putting it down, part of one by
/// single right clicks and putting the rest back. Where every stack of the
/// item has one stack size, sending those clicks in order moves exactly the
/// planned amount from one side to the other and leaves the cursor empty,
/// touching no slot that holds another item.
#[verifier::rlimit(40)]
pub fn plan_transfer(
    menu: &MenuSnapshot,
    direction: TransferDirection,
    item: &str,
    count: u32,
    allow_partial: bool,
) -> (plan: Result<TransferPlan, PlanError>)
    requires
        menu.container_slots@.len() + menu.player_slots@.len() <= usize::MAX,
        available_of(*menu, direction, item@) <= u32::MAX,
        capacity_of(*menu, direction, item@) <= u32::MAX,
    ensures
        count == 0 ==> plan == Err::<TransferPlan, PlanError>(PlanError::InvalidCount),
        count > 0 && available_of(*menu, direction, item@) == 0 ==> plan == Err::<TransferPlan, PlanError>(PlanError::ItemNotFound),
        count > 0 && available_of(*menu, direction, item@) > 0 && capacity_of(*menu, direction, item@) == 0
            ==> plan == Err::<TransferPlan, PlanError>(PlanError::DestinationFull),
        count > 0 && available_of(*menu, direction, item@) > 0 && capacity_of(*menu, direction, item@) > 0
            && feasible_of(*menu, direction, item@, count) < count && !allow_partial
            ==> plan == Err::<TransferPlan, PlanError>(PlanError::PartialOnly { available: feasible_of(*menu, direction, item@, count) as u32 }),
        count > 0 && available_of(*menu, direction, item@) > 0 && capacity_of(*menu, direction, item@) > 0
            && (feasible_of(*menu, direction, item@, count) == count || allow_partial) ==> plan is Ok,
        plan is Ok ==> {
            let p = plan->Ok_0;
            &&& count > 0
            &&& available_of(*menu, direction, item@) > 0
            &&& capacity_of(*menu, direction, item@) > 0
            &&& (feasible_of(*menu, direction, item@, count) == count || allow_partial)
            &&& p.direction == direction
            &&& p.item_id@ == item@
            &&& p.requested == count
            &&& p.planned == feasible_of(*menu, direction, item@, count)
            &&& p.expected_window == menu.window_id
            &&& p.expected_revision == menu.revision
            &&& forall|k: int| 0 <= k < p.clicks@.len() ==> p.clicks@[k].slot < menu.container_slots@.len() + menu.player_slots@.len()
        },
        plan is Ok ==> plan->Ok_0.clicks@ == plan_clicks(sources_of(*menu, direction), 0, item@,
            source_start(*menu, direction) as usize, destination_start(*menu, direction) as usize,
            feasible_of(*menu, direction, item@, count) as u32, initial_caps(*menu, direction, item@)),
        plan is Ok && uniform_stacks(*menu, item@, item_max_of(sources_of(*menu, direction), item@) as int) ==> {
            let p = plan->Ok_0;
            let start = menu_held(*menu, item@);
            let max = item_max_of(sources_of(*menu, direction), item@) as int;
            apply_clicks(start, 0, menu_foreign(*menu, item@), max, p.clicks@) matches Some((after, cursor))
                && cursor == 0
                && source_total(*menu, direction, after) == source_total(*menu, direction, start) - p.planned
                && destination_total(*menu, direction, after) == destination_total(*menu, direction, start) + p.planned
        },
{
    if count == 0 {
        return Err(PlanError::InvalidCount);
    }
    let split = menu.container_slots.len();
    let total_slots = menu.container_slots.len() + menu.player_slots.len();
    let (sources, destinations, source_offset, destination_offset) = match direction {
        TransferDirection::Take => (&menu.container_slots, &menu.player_slots, 0usize, split),
        TransferDirection::Store => (&menu.player_slots, &menu.container_slots, split, 0usize),
    };
    assert(sources@ == sources_of(*menu, direction));
    assert(destinations@ == destinations_of(*menu, direction));
    let available = count_of_item(sources, item);
    if available == 0 {
        return Err(PlanError::ItemNotFound);
    }
    let item_max = first_max(sources, item);
    let mut destination_capacities = capacities(destinations, item, item_max);
    let capacity_total = {
        let mut t: u32 = 0;
        let mut j: usize = destination_capacities.len();
        assert(destination_capacities@.subrange(j as int, j as int) =~= Seq::<u32>::empty());
        while j > 0
            invariant
                j <= destination_capacities@.len(),
                t == sum_of(destination_capacities@.subrange(j as int, destination_capacities@.len() as int)),
                sum_of(destination_capacities@) == capacity_of(*menu, direction, item@),
                capacity_of(*menu, direction, item@) <= u32::MAX,
            decreases j,
        {
            let ghost tail = destination_capacities@.subrange(j as int, destination_capacities@.len() as int);
            j = j - 1;
            assert(destination_capacities@.subrange(j as int, destination_capacities@.len() as int).drop_first() =~= tail);
            proof {
                lemma_suffix_sum_bounded(destination_capacities@, j as int);
            }
            t = t + destination_capacities[j];
        }
        assert(destination_capacities@.subrange(0, destination_capacities@.len() as int) =~= destination_capacities@);
        t
    };
    if capacity_total == 0 {
        return Err(PlanError::DestinationFull);
    }
    let mut feasible = if count < available { count } else { available };
    if capacity_total < feasible {
        feasible = capacity_total;
    }
    if feasible < count && !allow_partial {
        return Err(PlanError::PartialOnly { available: feasible });
    }
    let mut remaining = feasible;
    let mut clicks: Vec<InventoryClick> = Vec::new();
    let mut source_index: usize = 0;
    let ghost h0 = menu_held(*menu, item@);
    let ghost fr = menu_foreign(*menu, item@);
    let ghost m = item_max as int;
    let ghost wf = uniform_stacks(*menu, item@, m);
    let ghost src_lo = source_offset as int;
    let ghost dst_lo = destination_offset as int;
    let ghost mut gh = h0;
    let ghost so = source_offset;
    let ghost dso = destination_offset;
    let ghost total = plan_clicks(sources@, 0, item@, so, dso, feasible, destination_capacities@);
    assert(destination_capacities@ =~= initial_caps(*menu, direction, item@));
    proof {
        lemma_sides(*menu, direction);
        lemma_range_matches(*menu, item@, src_lo, src_lo + sources@.len());
        assert(clicks@ =~= Seq::<InventoryClick>::empty());
        assert forall|i: int| 0 <= i < sources@.len() implies menu_slots(*menu)[src_lo + i] == sources@[i] by {
            assert(menu_slots(*menu).subrange(src_lo, src_lo + sources@.len())[i] == menu_slots(*menu)[src_lo + i]);
        }
        assert forall|d: int| 0 <= d < destinations@.len() implies menu_slots(*menu)[dst_lo + d] == destinations@[d] by {
            assert(menu_slots(*menu).subrange(dst_lo, dst_lo + destinations@.len())[d] == menu_slots(*menu)[dst_lo + d]);
        }
        if wf {
            assert forall|j: int| #![trigger fr[j]] dst_lo <= j < dst_lo + destinations@.len() implies
                (fr[j] ==> destination_capacities@[j - dst_lo] == 0)
                && (!fr[j] ==> gh[j] + destination_capacities@[j - dst_lo] == m) by {
                assert(menu_slots(*menu)[dst_lo + (j - dst_lo)] == destinations@[j - dst_lo]);
            }
        }
    }
    assert(sources@.subrange(0, sources@.len() as int) =~= sources@);
    while source_index < sources.len() && remaining > 0
        invariant
            source_index <= sources@.len(),
            remaining <= feasible,
            sum_of(destination_capacities@) >= remaining,
            matching_total(sources@.subrange(source_index as int, sources@.len() as int), item@) >= remaining,
            destination_capacities@.len() == destinations@.len(),
            source_offset + sources@.len() <= total_slots,
            destination_offset + destinations@.len() <= total_slots,
            total_slots == menu.container_slots@.len() + menu.player_slots@.len(),
            forall|k: int| 0 <= k < clicks@.len() ==> clicks@[k].slot < total_slots,
            src_lo == source_offset,
            dst_lo == destination_offset,
            src_lo + sources@.len() <= dst_lo || dst_lo + destinations@.len() <= src_lo,
            h0 == menu_held(*menu, item@),
            fr == menu_foreign(*menu, item@),
            m == item_max,
            wf == uniform_stacks(*menu, item@, m),
            menu_slots(*menu).len() == total_slots,
            gh.len() == total_slots,
            forall|i: int| 0 <= i < sources@.len() ==> menu_slots(*menu)[src_lo + i] == sources@[i],
            forall|d: int| 0 <= d < destinations@.len() ==> menu_slots(*menu)[dst_lo + d] == destinations@[d],
            wf ==> apply_clicks(h0, 0, fr, m, clicks@) == Some((gh, 0int)),
            wf ==> forall|j: int| #![trigger fr[j]] dst_lo <= j < dst_lo + destinations@.len() ==>
                (fr[j] ==> destination_capacities@[j - dst_lo] == 0)
                && (!fr[j] ==> gh[j] + destination_capacities@[j - dst_lo] == m),
            wf ==> forall|j: int| src_lo + source_index <= j < src_lo + sources@.len() ==> gh[j] == h0[j],
            wf ==> range_total(gh, src_lo, src_lo + sources@.len()) == available - (feasible - remaining),
            wf ==> range_total(gh, dst_lo, dst_lo + destinations@.len())
                == range_total(h0, dst_lo, dst_lo + destinations@.len()) + (feasible - remaining),
            so == source_offset,
            dso == destination_offset,
            total == clicks@ + plan_clicks(sources@, source_index as int, item@, so, dso, remaining, destination_capacities@),
        decreases sources@.len() - source_index,
    {
        let ghost rest = sources@.subrange(source_index as int, sources@.len() as int);
        assert(rest.drop_first() =~= sources@.subrange(source_index + 1, sources@.len() as int));
        let ghost rem_start = remaining;
        let matched = match &sources[source_index] {
            Some(s) => str_equal(s.item_id.as_str(), item),
            None => false,
        };
        assert(rest[0] == sources@[source_index as int]);
        assert(matched == holds_item(rest[0], item@));
        let ghost tail = sources@.subrange(source_index + 1, sources@.len() as int);
        assert(matching_total(rest, item@) == (if holds_item(rest[0], item@) { rest[0]->0.count as int } else { 0 }) + matching_total(tail, item@));
        if matched {
            let source = sources[source_index].as_ref().unwrap();
            assert(rest[0]->0 == *source);
            let mut source_remaining = source.count;
            let mut from_stack = if source.count < remaining { source.count } else { remaining };
            let source_slot = source_offset + source_index;
            proof {
                assert(sources@[source_index as int]->0.count == source.count);
                assert(total == clicks@ + drain_then_rest(sources@, source_index as int, item@, so, dso, source_remaining, from_stack,
                    remaining, destination_capacities@));
                assert(menu_slots(*menu)[source_slot as int] == sources@[source_index as int]);
                assert(!fr[source_slot as int]);
                assert(h0[source_slot as int] == source.count);
                if wf {
                    assert(holds_item(menu_slots(*menu)[source_slot as int], item@));
                    assert(source.count <= m);
                }
            }
            while from_stack > 0
                invariant
                    from_stack <= remaining,
                    remaining <= rem_start,
                    rem_start - remaining == (if source.count < rem_start { source.count } else { rem_start }) - from_stack,
                    sum_of(destination_capacities@) >= remaining,
                    destination_capacities@.len() == destinations@.len(),
                    source_slot < total_slots,
                    destination_offset + destinations@.len() <= total_slots,
                    forall|k: int| 0 <= k < clicks@.len() ==> clicks@[k].slot < total_slots,
                    from_stack <= source_remaining,
                    source_remaining <= source.count,
                    source_slot == src_lo + source_index,
                    dst_lo == destination_offset,
                    src_lo == source_offset,
                    source_offset + sources@.len() <= total_slots,
                    src_lo + sources@.len() <= dst_lo || dst_lo + destinations@.len() <= src_lo,
                    source_index < sources@.len(),
                    !fr[source_slot as int],
                    wf ==> source.count <= m,
                    fr.len() == total_slots,
                    gh.len() == total_slots,
                    wf ==> apply_clicks(h0, 0, fr, m, clicks@) == Some((gh, 0int)),
                    wf ==> gh[source_slot as int] == source_remaining,
                    wf ==> forall|j: int| #![trigger fr[j]] dst_lo <= j < dst_lo + destinations@.len() ==>
                        (fr[j] ==> destination_capacities@[j - dst_lo] == 0)
                        && (!fr[j] ==> gh[j] + destination_capacities@[j - dst_lo] == m),
                    wf ==> forall|j: int| src_lo + source_index < j < src_lo + sources@.len() ==> gh[j] == h0[j],
                    wf ==> range_total(gh, src_lo, src_lo + sources@.len()) == available - (feasible - remaining),
                    wf ==> range_total(gh, dst_lo, dst_lo + destinations@.len())
                        == range_total(h0, dst_lo, dst_lo + destinations@.len()) + (feasible - remaining),
                    so == source_offset,
                    dso == destination_offset,
                    total == clicks@ + drain_then_rest(sources@, source_index as int, item@, so, dso, source_remaining, from_stack,
                        remaining, destination_capacities@),
                ensures
                    total == clicks@ + plan_clicks(sources@, source_index + 1, item@, so, dso, remaining, destination_capacities@),
                    from_stack == 0 || remaining == 0,
                    rem_start - remaining == (if source.count < rem_start { source.count } else { rem_start }) - from_stack,
                    sum_of(destination_capacities@) >= remaining,
                    destination_capacities@.len() == destinations@.len(),
                    forall|k: int| 0 <= k < clicks@.len() ==> clicks@[k].slot < total_slots,
                    gh.len() == total_slots,
                    wf ==> apply_clicks(h0, 0, fr, m, clicks@) == Some((gh, 0int)),
                    wf ==> forall|j: int| #![trigger fr[j]] dst_lo <= j < dst_lo + destinations@.len() ==>
                        (fr[j] ==> destination_capacities@[j - dst_lo] == 0)
                        && (!fr[j] ==> gh[j] + destination_capacities@[j - dst_lo] == m),
                    wf ==> forall|j: int| src_lo + source_index < j < src_lo + sources@.len() ==> gh[j] == h0[j],
                    wf ==> range_total(gh, src_lo, src_lo + sources@.len()) == available - (feasible - remaining),
                    wf ==> range_total(gh, dst_lo, dst_lo + destinations@.len())
                        == range_total(h0, dst_lo, dst_lo + destinations@.len()) + (feasible - remaining),
                decreases from_stack,
            {
                proof {
                    lemma_positive_sum_has_positive(destination_capacities@);
                }
                let destination_index = match first_with_capacity(&destination_capacities) {
                    Some(d) => d,
                    None => {
                        proof {
                            let w = choose|i: int| 0 <= i < destination_capacities@.len() && destination_capacities@[i] > 0;
                            assert(destination_capacities@[w] == 0);
                        }
                        break;
                    },
                };
                let destination_capacity = destination_capacities[destination_index];
                let mut moving = if from_stack < destination_capacity { from_stack } else { destination_capacity };
                if remaining < moving {
                    moving = remaining;
                }
                let destination_slot = destination_offset + destination_index;
                let ghost caps_old = destination_capacities@;
                let ghost sr_old = source_remaining;
                let ghost from_old = from_stack;
                let ghost rem_old = remaining;
                let ghost g_before = gh;
                let ghost s_i = source_slot as int;
                let ghost d_i = destination_slot as int;
                proof {
                    if wf {
                        assert(!fr[d_i]);
                        assert(g_before[d_i] + destination_capacity == m);
                    }
                }
                let ghost c_start = clicks@;
                clicks.push(InventoryClick { slot: source_slot, button: ClickButton::Left });
                proof {
                    if wf {
                        lemma_apply_push(h0, 0, fr, m, c_start, InventoryClick { slot: source_slot, button: ClickButton::Left });
                    }
                }
                let ghost g1 = g_before.update(s_i, 0);
                if moving == source_remaining && moving <= destination_capacity {
                    let ghost c_mid = clicks@;
                    clicks.push(InventoryClick { slot: destination_slot, button: ClickButton::Left });
                    proof {
                        if wf {
                            lemma_apply_push(h0, 0, fr, m, c_mid, InventoryClick { slot: destination_slot, button: ClickButton::Left });
                            assert(g1[d_i] == g_before[d_i]);
                        }
                        gh = g1.update(d_i, g_before[d_i] + moving);
                    }
                } else {
                    let ghost c_mid = clicks@;
                    let mut k: u32 = 0;
                    while k < moving
                        invariant
                            k <= moving,
                            destination_slot < total_slots,
                            forall|q: int| 0 <= q < clicks@.len() ==> clicks@[q].slot < total_slots,
                            clicks@ == c_mid + right_clicks(destination_slot, k as nat),
                        decreases moving - k,
                    {
                        let ghost before_push = clicks@;
                        clicks.push(InventoryClick { slot: destination_slot, button: ClickButton::Right });
                        assert(c_mid + right_clicks(destination_slot, (k + 1) as nat)
                            =~= before_push.push(InventoryClick { slot: destination_slot, button: ClickButton::Right }));
                        k = k + 1;
                    }
                    let ghost g2 = g1.update(d_i, g1[d_i] + moving);
                    proof {
                        if wf {
                            lemma_apply_rights(h0, 0, fr, m, c_mid, g1, source_remaining as int, destination_slot, moving as nat);
                        }
                    }
                    let ghost c_back = clicks@;
                    clicks.push(InventoryClick { slot: source_slot, button: ClickButton::Left });
                    proof {
                        if wf {
                            lemma_apply_push(h0, 0, fr, m, c_back, InventoryClick { slot: source_slot, button: ClickButton::Left });
                        }
                        gh = g2.update(s_i, source_remaining - moving);
                        assert(gh =~= g_before.update(s_i, source_remaining - moving).update(d_i, g_before[d_i] + moving));
                    }
                }
                proof {
                    assert(gh =~= g_before.update(s_i, source_remaining - moving).update(d_i, g_before[d_i] + moving));
                    if wf {
                        let g_mid = g_before.update(s_i, source_remaining - moving);
                        lemma_range_update(g_before, src_lo, src_lo + sources@.len(), s_i, source_remaining - moving);
                        lemma_range_update(g_before, dst_lo, dst_lo + destinations@.len(), s_i, source_remaining - moving);
                        lemma_range_update(g_mid, src_lo, src_lo + sources@.len(), d_i, g_before[d_i] + moving);
                        lemma_range_update(g_mid, dst_lo, dst_lo + destinations@.len(), d_i, g_before[d_i] + moving);
                    }
                }
                source_remaining = if source_remaining >= moving { source_remaining - moving } else { 0 };
                from_stack = from_stack - moving;
                remaining = remaining - moving;
                proof {
                    lemma_sum_update(destination_capacities@, destination_index as int, (destination_capacity - moving) as u32);
                }
                destination_capacities.set(destination_index, destination_capacity - moving);
                proof {
                    assert(clicks@ =~= c_start + move_clicks(source_slot, destination_slot, moving, sr_old));
                    assert(destination_capacities@ =~= caps_old.update(destination_index as int, (caps_old[destination_index as int] - moving) as u32));
                    lemma_drain_step(sources@, source_index as int, item@, so, dso, sr_old, from_old, rem_old, caps_old,
                        destination_index as int, moving, c_start, clicks@, destination_capacities@, total);
                }
                if remaining == 0 {
                    break;
                }
            }
            assert(rem_start <= matching_total(rest, item@));
            assert(matching_total(rest, item@) == source.count + matching_total(tail, item@));
            assert(from_stack == 0 || remaining == 0);
        }
        proof {
            lemma_total_nonneg(tail, item@);
        }
        assert(remaining <= matching_total(tail, item@));
        source_index = source_index + 1;
    }
    proof {
        if remaining > 0 {
            assert(source_index == sources@.len());
            assert(sources@.subrange(source_index as int, sources@.len() as int) =~= Seq::<Option<StackSnapshot>>::empty());
        }
        assert(total =~= clicks@);
    }
    Ok(TransferPlan {
        direction,
        item_id: item.to_owned(),
        requested: count,
        planned: feasible - remaining,
        clicks,
        expected_window: menu.window_id,
        expected_revision: menu.revision,
    })
}

proof fn lemma_suffix_sum_bounded(v: Seq<u32>, i: int)
    requires
        0 <= i <= v.len(),
    ensures
        sum_of(v.subrange(i, v.len() as int)) <= sum_of(v),
    decreases i,
{
    if i > 0 {
        lemma_suffix_sum_bounded(v.drop_first(), i - 1);
        assert(v.drop_first().subrange(i - 1, v.drop_first().len() as int) =~= v.subrange(i, v.len() as int));
    } else {
        assert(v.subrange(0, v.len() as int) =~= v);
    }
}

fn wide_sum(v: &Vec<u32>) -> (t: u128)
    ensures
        t == sum_of(v@),
{
    let mut t: u128 = 0;
    let mut j: usize = v.len();
    assert(v@.subrange(j as int, j as int) =~= Seq::<u32>::empty());
    while j > 0
        invariant
            j <= v@.len(),
            t == sum_of(v@.subrange(j as int, v@.len() as int)),
            t <= (v@.len() - j) * 0xFFFF_FFFF,
            v@.len() <= usize::MAX,
        decreases j,
    {
        let ghost tail = v@.subrange(j as int, v@.len() as int);
        j = j - 1;
        assert(v@.subrange(j as int, v@.len() as int).drop_first() =~= tail);
        t = t + v[j] as u128;
    }
    assert(v@.subrange(0, v@.len() as int) =~= v@);
    t
}

fn wide_matching_total(slots: &Vec<Option<StackSnapshot>>, item: &str) -> (t: u128)
    ensures
        t == matching_total(slots@, item@),
{
    let mut t: u128 = 0;
    let mut j: usize = slots.len();
    assert(slots@.subrange(j as int, j as int) =~= Seq::<Option<StackSnapshot>>::empty());
    while j > 0
        invariant
            j <= slots@.len(),
            t == matching_total(slots@.subrange(j as int, slots@.len() as int), item@),
            t <= (slots@.len() - j) * 0xFFFF_FFFF,
            slots@.len() <= usize::MAX,
        decreases j,
    {
        let ghost tail = slots@.subrange(j as int, slots@.len() as int);
        j = j - 1;
        assert(slots@.subrange(j as int, slots@.len() as int).drop_first() =~= tail);
        match &slots[j] {
            Some(s) => {
                if str_equal(s.item_id.as_str(), item) {
                    t = t + s.count as u128;
                }
            },
            None => {},
        }
    }
    assert(slots@.subrange(0, slots@.len() as int) =~= slots@);
    t
}

/// Whether the totals [`plan_transfer`] works with fit its counts: the
/// menu's slot numbers fit a `usize`, and both what the sources hold of
/// `item` and what the destinations can take fit a `u32`.
pub fn transfer_fits(menu: &MenuSnapshot, direction: TransferDirection, item: &str) -> (r: bool)
    ensures
        r == (menu.container_slots@.len() + menu.player_slots@.len() <= usize::MAX
            && available_of(*menu, direction, item@) <= u32::MAX
            && capacity_of(*menu, direction, item@) <= u32::MAX),
{
    if menu.container_slots.len() > usize::MAX - menu.player_slots.len() {
        return false;
    }
    let (sources, destinations) = match direction {
        TransferDirection::Take => (&menu.container_slots, &menu.player_slots),
        TransferDirection::Store => (&menu.player_slots, &menu.container_slots),
    };
    assert(sources@ == sources_of(*menu, direction));
    assert(destinations@ == destinations_of(*menu, direction));
    let available = wide_matching_total(sources, item);
    let item_max = first_max(sources, item);
    let caps = capacities(destinations, item, item_max);
    let capacity = wide_sum(&caps);
    available <= 0xFFFF_FFFFu128 && capacity <= 0xFFFF_FFFFu128
}

} // verus!
