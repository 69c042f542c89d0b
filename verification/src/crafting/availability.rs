//! Whether a recipe can be run from an inventory, how often, and what is
//! missing -- worked out on a copy, never touching the inventory itself.
use vstd::prelude::*;
use crate::crafting::counts::{ItemCounts, count_of};
use crate::crafting::recipes::{Failure, Ingredient, IngredientSlot, Recipe, RecipeBook, Station,
    views, layout_slots, ingredients};
use crate::crafting::planner::{choices_of, saturated, saturating_sum};
use crate::text::{seq_lt, str_lt, str_equal, lemma_seq_lt_transitive, lemma_seq_lt_irreflexive, debug_quoted, debug_string};

verus! {

/// An ingredient the inventory cannot supply, and how much of it.
#[derive(Clone, Debug, PartialEq, Eq)]
pub struct Missing {
    /// The alternative that would be used first.
    pub ingredient: String,
    pub count: u32,
    /// Every alternative, in the order they would be used.
    pub alternatives: Vec<String>,
}

/// Whether and how often a recipe can be run.
#[derive(Clone, Debug, PartialEq, Eq)]
pub struct Availability {
    /// The requested operations the inventory supports.
    pub crafts: u32,
    /// How many operations the inventory supports at all.
    pub maximum_crafts: u32,
    /// What the requested operations lack, grouped.
    pub missing: Vec<Missing>,
    pub station_required: Station,
    pub failure: Option<Failure>,
}

/// The plain content of a [`Missing`].
pub struct MissingView {
    pub ingredient: Seq<char>,
    pub count: u32,
    pub alternatives: Seq<Seq<char>>,
}

impl View for Missing {
    type V = MissingView;

    open spec fn view(&self) -> MissingView {
        MissingView { ingredient: self.ingredient@, count: self.count, alternatives: views(self.alternatives@) }
    }
}

/// The plain content of a list of [`Missing`].
pub open spec fn missing_views(v: Seq<Missing>) -> Seq<MissingView> {
    v.map_values(|m: Missing| m@)
}

/// How an ingredient that cannot be planned is named in a shortfall: as
/// `Debug` prints it, the variant's name around its quoted text.
pub open spec fn described(ingredient: Ingredient) -> Seq<char> {
    match ingredient {
        Ingredient::Tag(s) => "Tag("@ + debug_quoted(s@) + ")"@,
        Ingredient::Special(s) => "Special("@ + debug_quoted(s@) + ")"@,
        Ingredient::Item(s) => "Item("@ + debug_quoted(s@) + ")"@,
        _ => Seq::empty(),
    }
}

/// Executable form of [`described`], for the ingredients that name text.
fn describe(ingredient: &Ingredient) -> (r: String)
    requires
        ingredient is Tag || ingredient is Special || ingredient is Item,
    ensures
        r@ == described(*ingredient),
{
    match ingredient {
        Ingredient::Tag(s) => wrapped("Tag(", s),
        Ingredient::Special(s) => wrapped("Special(", s),
        Ingredient::Item(s) => wrapped("Item(", s),
        _ => String::new(),
    }
}

/// `head`, then the `Debug` rendering of `text`, then `)`.
fn wrapped(head: &str, text: &String) -> (r: String)
    ensures
        r@ == head@ + debug_quoted(text@) + ")"@,
{
    let mut r = String::from_str(head);
    let shown = debug_string(text);
    r.append(shown.as_str());
    r.append(")");
    r
}

/// The order alternatives are used in: more held first, then by id.
pub open spec fn ranked_before(inventory: Map<Seq<char>, u32>, a: Seq<char>, b: Seq<char>) -> bool {
    count_of(inventory, a) > count_of(inventory, b)
        || (count_of(inventory, a) == count_of(inventory, b) && seq_lt(a, b))
}

/// `sorted` with `x` inserted after everything not ranked after it.
pub open spec fn insert_ranked(inventory: Map<Seq<char>, u32>, sorted: Seq<Seq<char>>, x: Seq<char>) -> Seq<Seq<char>>
    decreases sorted.len(),
{
    if sorted.len() == 0 {
        seq![x]
    } else if ranked_before(inventory, x, sorted[0]) {
        seq![x] + sorted
    } else {
        seq![sorted[0]] + insert_ranked(inventory, sorted.drop_first(), x)
    }
}

/// `cs` in the order they are used (a stable sort by [`ranked_before`]).
pub open spec fn ranked(inventory: Map<Seq<char>, u32>, cs: Seq<Seq<char>>) -> Seq<Seq<char>>
    decreases cs.len(),
{
    if cs.len() == 0 {
        Seq::empty()
    } else {
        insert_ranked(inventory, ranked(inventory, cs.drop_last()), cs.last())
    }
}

/// Inserting at the first position ranked after `x` is [`insert_ranked`].
proof fn lemma_insert_ranked_at(inventory: Map<Seq<char>, u32>, sorted: Seq<Seq<char>>, x: Seq<char>, p: int)
    requires
        0 <= p <= sorted.len(),
        forall|k: int| 0 <= k < p ==> !ranked_before(inventory, x, #[trigger] sorted[k]),
        p < sorted.len() ==> ranked_before(inventory, x, sorted[p]),
    ensures
        insert_ranked(inventory, sorted, x) == sorted.insert(p, x),
    decreases p,
{
    if sorted.len() == 0 {
        assert(sorted.insert(p, x) =~= seq![x]);
    } else if p == 0 {
        assert(sorted.insert(0, x) =~= seq![x] + sorted);
    } else {
        let rest = sorted.drop_first();
        assert forall|k: int| 0 <= k < p - 1 implies !ranked_before(inventory, x, #[trigger] rest[k]) by {
            assert(rest[k] == sorted[k + 1]);
        }
        if p - 1 < rest.len() {
            assert(rest[p - 1] == sorted[p]);
        }
        lemma_insert_ranked_at(inventory, rest, x, p - 1);
        assert(seq![sorted[0]] + rest.insert(p - 1, x) =~= sorted.insert(p, x));
    }
}

/// The alternatives of `cs` ranked for `inventory`.
fn rank_choices(inventory: &ItemCounts, cs: &Vec<String>) -> (r: Vec<String>)
    ensures
        views(r@) == ranked(inventory@, views(cs@)),
{
    let ghost all = views(cs@);
    let mut sorted: Vec<String> = Vec::new();
    let mut i: usize = 0;
    proof {
        assert(all.take(0) =~= Seq::<Seq<char>>::empty());
        assert(views(sorted@) =~= Seq::<Seq<char>>::empty());
    }
    while i < cs.len()
        invariant
            i <= cs@.len(),
            all == views(cs@),
            views(sorted@) == ranked(inventory@, all.take(i as int)),
        decreases cs@.len() - i,
    {
        let x = &cs[i];
        let held = inventory.get(x.as_str());
        let ghost s = views(sorted@);
        let mut p: usize = 0;
        let mut found = false;
        while p < sorted.len() && !found
            invariant
                p <= sorted@.len(),
                s == views(sorted@),
                held == count_of(inventory@, x@),
                forall|k: int| 0 <= k < p ==> !ranked_before(inventory@, x@, #[trigger] s[k]),
                found ==> p < sorted@.len() && ranked_before(inventory@, x@, s[p as int]),
            decreases sorted@.len() - p + if found { 0int } else { 1int },
        {
            let other = inventory.get(sorted[p].as_str());
            let before = held > other || (held == other && str_lt(x.as_str(), sorted[p].as_str()));
            proof {
                assert(s[p as int] == sorted@[p as int]@);
            }
            if before {
                found = true;
            } else {
                p = p + 1;
            }
        }
        proof {
            lemma_insert_ranked_at(inventory@, s, x@, p as int);
            assert(all.take(i + 1).drop_last() =~= all.take(i as int));
            assert(all.take(i + 1).last() == x@);
        }
        let ghost before_insert = sorted@;
        sorted.insert(p, x.clone());
        proof {
            assert(views(sorted@) =~= s.insert(p as int, x@));
        }
        i = i + 1;
    }
    proof {
        assert(all.take(cs@.len() as int) =~= all);
    }
    sorted
}

/// Taking `needed` units from the alternatives `cs[i..]`, each in turn as
/// far as it goes: the inventory afterwards and what is still lacking.
pub open spec fn take_from(inventory: Map<Seq<char>, u32>, cs: Seq<Seq<char>>, i: int, needed: u32) -> (Map<Seq<char>, u32>, u32)
    decreases cs.len() - i,
{
    if i < 0 || i >= cs.len() || needed == 0 {
        (inventory, needed)
    } else {
        let held = count_of(inventory, cs[i]);
        let take = if held < needed { held } else { needed };
        let next = if take > 0 { inventory.insert(cs[i], (held - take) as u32) } else { inventory };
        take_from(next, cs, i + 1, (needed - take) as u32)
    }
}

/// One cell's consumption: the inventory afterwards, and what it lacks.
/// An ingredient that cannot be planned lacks its whole count.
pub open spec fn consume_slot(tags: Seq<(String, Vec<String>)>, inventory: Map<Seq<char>, u32>, slot: IngredientSlot) -> (Map<Seq<char>, u32>, Option<MissingView>) {
    match choices_of(tags, slot.ingredient) {
        Err(_) => (inventory, Some(MissingView { ingredient: described(slot.ingredient), count: slot.count, alternatives: Seq::empty() })),
        Ok(cs) => {
            let order = ranked(inventory, cs);
            let (after, left) = take_from(inventory, order, 0, slot.count);
            if left > 0 {
                (after, Some(MissingView {
                    ingredient: if order.len() > 0 { order[0] } else { Seq::empty() },
                    count: left,
                    alternatives: order,
                }))
            } else {
                (after, None)
            }
        },
    }
}

/// One operation's consumption over the first `n` cells (empty cells
/// skipped): the inventory afterwards and what is lacking, cell by cell.
pub open spec fn consume_cells(tags: Seq<(String, Vec<String>)>, inventory: Map<Seq<char>, u32>, slots: Seq<IngredientSlot>, n: int) -> (Map<Seq<char>, u32>, Seq<MissingView>)
    decreases n,
{
    if n <= 0 || n > slots.len() {
        (inventory, Seq::empty())
    } else {
        let (inv, ms) = consume_cells(tags, inventory, slots, n - 1);
        let slot = slots[n - 1];
        if slot.ingredient is Empty {
            (inv, ms)
        } else {
            let (after, m) = consume_slot(tags, inv, slot);
            (after, match m {
                Some(x) => ms.push(x),
                None => ms,
            })
        }
    }
}

/// One whole operation of `recipe`.
pub open spec fn consume_operation_spec(tags: Seq<(String, Vec<String>)>, inventory: Map<Seq<char>, u32>, recipe: Recipe) -> (Map<Seq<char>, u32>, Seq<MissingView>) {
    consume_cells(tags, inventory, layout_slots(recipe.layout), layout_slots(recipe.layout).len() as int)
}

/// `k` operations in a row, what each lacks appended in turn.
pub open spec fn consume_repeatedly(tags: Seq<(String, Vec<String>)>, inventory: Map<Seq<char>, u32>, recipe: Recipe, k: nat) -> (Map<Seq<char>, u32>, Seq<MissingView>)
    decreases k,
{
    if k == 0 {
        (inventory, Seq::empty())
    } else {
        let (inv, ms) = consume_repeatedly(tags, inventory, recipe, (k - 1) as nat);
        let (after, more) = consume_operation_spec(tags, inv, recipe);
        (after, ms + more)
    }
}

/// How many operations in a row, from the `n`th on, go through without
/// lacking anything -- counting at most to `u32::MAX`.
pub open spec fn supported_from(tags: Seq<(String, Vec<String>)>, inventory: Map<Seq<char>, u32>, recipe: Recipe, n: u32) -> u32
    decreases u32::MAX - n,
{
    let (after, ms) = consume_operation_spec(tags, inventory, recipe);
    if ms.len() > 0 {
        n
    } else if n >= u32::MAX - 1 {
        u32::MAX
    } else {
        supported_from(tags, after, recipe, (n + 1) as u32)
    }
}

/// Lexicographic order on lists of ids (the order of `Vec<String>`).
pub open spec fn ids_lt(a: Seq<Seq<char>>, b: Seq<Seq<char>>) -> bool
    decreases a.len(),
{
    if a.len() == 0 {
        b.len() > 0
    } else if b.len() == 0 {
        false
    } else if seq_lt(a[0], b[0]) {
        true
    } else if a[0] == b[0] {
        ids_lt(a.drop_first(), b.drop_first())
    } else {
        false
    }
}

/// Whether two shortfalls concern the same ingredient and alternatives.
pub open spec fn same_key(a: MissingView, b: MissingView) -> bool {
    a.ingredient == b.ingredient && a.alternatives == b.alternatives
}

/// The order shortfalls are reported in: by ingredient, then by
/// alternatives.
pub open spec fn key_before(a: MissingView, b: MissingView) -> bool {
    seq_lt(a.ingredient, b.ingredient) || (a.ingredient == b.ingredient && ids_lt(a.alternatives, b.alternatives))
}

/// `m` merged into the ordered shortfalls `acc`: added to the entry with
/// its key, or inserted where its key belongs (counts saturate).
pub open spec fn merge_missing(acc: Seq<MissingView>, m: MissingView) -> Seq<MissingView>
    decreases acc.len(),
{
    if acc.len() == 0 {
        seq![m]
    } else if same_key(acc[0], m) {
        seq![MissingView { count: saturated(acc[0].count + m.count), ..acc[0] }] + acc.drop_first()
    } else if key_before(m, acc[0]) {
        seq![m] + acc
    } else {
        seq![acc[0]] + merge_missing(acc.drop_first(), m)
    }
}

/// Shortfalls grouped by key, in key order, counts summed.
pub open spec fn consolidated(ms: Seq<MissingView>) -> Seq<MissingView>
    decreases ms.len(),
{
    if ms.len() == 0 {
        Seq::empty()
    } else {
        merge_missing(consolidated(ms.drop_last()), ms.last())
    }
}

proof fn lemma_merge_at(acc: Seq<MissingView>, m: MissingView, p: int)
    requires
        0 <= p <= acc.len(),
        forall|k: int| 0 <= k < p ==> !same_key(#[trigger] acc[k], m) && !key_before(m, acc[k]),
    ensures
        merge_missing(acc, m) == acc.take(p) + merge_missing(acc.skip(p), m),
    decreases p,
{
    if p == 0 {
        assert(acc.take(0) + merge_missing(acc.skip(0), m) =~= merge_missing(acc, m)) by {
            assert(acc.skip(0) =~= acc);
        }
    } else {
        let rest = acc.drop_first();
        assert forall|k: int| 0 <= k < p - 1 implies !same_key(#[trigger] rest[k], m) && !key_before(m, rest[k]) by {
            assert(rest[k] == acc[k + 1]);
        }
        lemma_merge_at(rest, m, p - 1);
        assert(rest.skip(p - 1) =~= acc.skip(p));
        assert(seq![acc[0]] + rest.take(p - 1) =~= acc.take(p));
    }
}

/// Whether two lists of ids are equal.
fn ids_equal(a: &Vec<String>, b: &Vec<String>) -> (r: bool)
    ensures
        r == (views(a@) == views(b@)),
{
    if a.len() != b.len() {
        proof {
            assert(views(a@).len() != views(b@).len());
        }
        return false;
    }
    let mut i: usize = 0;
    while i < a.len()
        invariant
            i <= a@.len(),
            a@.len() == b@.len(),
            forall|k: int| 0 <= k < i ==> (#[trigger] a@[k])@ == b@[k]@,
        decreases a@.len() - i,
    {
        if !str_equal(a[i].as_str(), b[i].as_str()) {
            proof {
                assert(views(a@)[i as int] != views(b@)[i as int]);
            }
            return false;
        }
        i = i + 1;
    }
    proof {
        assert(views(a@) =~= views(b@));
    }
    true
}

/// Whether `a` sorts before `b` as lists of ids.
fn ids_before(a: &Vec<String>, b: &Vec<String>) -> (r: bool)
    ensures
        r == ids_lt(views(a@), views(b@)),
{
    let ghost va = views(a@);
    let ghost vb = views(b@);
    let mut i: usize = 0;
    proof {
        assert(va.skip(0) =~= va);
        assert(vb.skip(0) =~= vb);
    }
    while i < a.len() && i < b.len()
        invariant
            i <= a@.len(),
            i <= b@.len(),
            va == views(a@),
            vb == views(b@),
            ids_lt(va, vb) == ids_lt(va.skip(i as int), vb.skip(i as int)),
        decreases a@.len() - i,
    {
        proof {
            assert(va.skip(i as int)[0] == a@[i as int]@);
            assert(vb.skip(i as int)[0] == b@[i as int]@);
            assert(va.skip(i as int).drop_first() =~= va.skip(i + 1));
            assert(vb.skip(i as int).drop_first() =~= vb.skip(i + 1));
        }
        if str_lt(a[i].as_str(), b[i].as_str()) {
            return true;
        }
        if !str_equal(a[i].as_str(), b[i].as_str()) {
            return false;
        }
        i = i + 1;
    }
    i < b.len()
}

/// Groups `missing` by ingredient and alternatives, in key order, summing
/// counts ([`consolidated`]).
pub fn consolidate_missing(missing: &mut Vec<Missing>)
    ensures
        missing_views(final(missing)@) == consolidated(missing_views(old(missing)@)),
{
    let mut input: Vec<Missing> = Vec::new();
    std::mem::swap(&mut input, missing);
    let ghost all = missing_views(input@);
    let mut acc: Vec<Missing> = Vec::new();
    let mut i: usize = 0;
    proof {
        assert(all.take(0) =~= Seq::<MissingView>::empty());
        assert(missing_views(acc@) =~= Seq::<MissingView>::empty());
    }
    while i < input.len()
        invariant
            i <= input@.len(),
            all == missing_views(input@),
            missing_views(acc@) == consolidated(all.take(i as int)),
        decreases input@.len() - i,
    {
        let m = &input[i];
        let ghost a = missing_views(acc@);
        let ghost mv = m@;
        proof {
            assert(all.take(i + 1).drop_last() =~= all.take(i as int));
            assert(all.take(i + 1).last() == mv);
        }
        let mut p: usize = 0;
        let mut found = false;
        let mut same = false;
        while p < acc.len() && !found
            invariant
                p <= acc@.len(),
                a == missing_views(acc@),
                mv == m@,
                forall|k: int| 0 <= k < p ==> !same_key(#[trigger] a[k], mv) && !key_before(mv, a[k]),
                found ==> p < acc@.len() && (same == same_key(a[p as int], mv)) && (same || key_before(mv, a[p as int])),
                !found ==> !same,
            decreases acc@.len() - p + if found { 0int } else { 1int },
        {
            proof {
                assert(a[p as int] == acc@[p as int]@);
            }
            let equal = str_equal(acc[p].ingredient.as_str(), m.ingredient.as_str())
                && ids_equal(&acc[p].alternatives, &m.alternatives);
            let before = str_lt(m.ingredient.as_str(), acc[p].ingredient.as_str())
                || (str_equal(m.ingredient.as_str(), acc[p].ingredient.as_str())
                    && ids_before(&m.alternatives, &acc[p].alternatives));
            if equal || before {
                found = true;
                same = equal;
            } else {
                p = p + 1;
            }
        }
        proof {
            lemma_merge_at(a, mv, p as int);
        }
        if same {
            let total = saturating_sum(acc[p].count, m.count);
            let merged = Missing { ingredient: acc[p].ingredient.clone(), count: total, alternatives: acc[p].alternatives.clone() };
            proof {
                assert(views(merged.alternatives@) == views(acc@[p as int].alternatives@));
            }
            acc.set(p, merged);
            proof {
                let tail = a.skip(p as int);
                assert(tail[0] == a[p as int]);
                assert(tail.drop_first() =~= a.skip(p + 1));
                assert(missing_views(acc@) =~= a.take(p as int) + merge_missing(tail, mv));
            }
        } else {
            let copy = Missing { ingredient: m.ingredient.clone(), count: m.count, alternatives: crate::crafting::recipes::clone_strings(&m.alternatives) };
            proof {
                assert(copy@ == mv);
            }
            acc.insert(p, copy);
            proof {
                let tail = a.skip(p as int);
                if p < a.len() {
                    assert(tail[0] == a[p as int]);
                    assert(merge_missing(tail, mv) == seq![mv] + tail);
                } else {
                    assert(tail =~= Seq::<MissingView>::empty());
                }
                assert(missing_views(acc@) =~= a.take(p as int) + merge_missing(tail, mv));
            }
        }
        i = i + 1;
    }
    proof {
        assert(all.take(input@.len() as int) =~= all);
    }
    *missing = acc;
}

impl RecipeBook {
    /// Takes `count` units from the alternatives `order`, each in turn as
    /// far as it goes ([`take_from`]); returns what is still lacking.
    fn take_units(inventory: &mut ItemCounts, order: &Vec<String>, count: u32) -> (left: u32)
        ensures
            (final(inventory)@, left) == take_from(old(inventory)@, views(order@), 0, count),
    {
        let ghost cs = views(order@);
        let mut needed = count;
        let mut j: usize = 0;
        while j < order.len() && needed > 0
            invariant
                j <= order@.len(),
                cs == views(order@),
                take_from(old(inventory)@, cs, 0, count) == take_from(inventory@, cs, j as int, needed),
            decreases order@.len() - j,
        {
            let held = inventory.get(order[j].as_str());
            let take = if held < needed { held } else { needed };
            proof {
                assert(cs[j as int] == order@[j as int]@);
            }
            if take > 0 {
                inventory.insert(order[j].clone(), held - take);
            }
            needed = needed - take;
            j = j + 1;
        }
        needed
    }

    /// One operation of `recipe` against `inventory`, appending what it
    /// lacks to `missing` ([`consume_operation_spec`]).
    fn consume_operation(&self, recipe: &Recipe, inventory: &mut ItemCounts, missing: &mut Vec<Missing>)
        ensures
            final(inventory)@ == consume_operation_spec(self.tag_seq(), old(inventory)@, *recipe).0,
            missing_views(final(missing)@) == missing_views(old(missing)@) + consume_operation_spec(self.tag_seq(), old(inventory)@, *recipe).1,
    {
        let slots = ingredients(&recipe.layout);
        let ghost tags = self.tag_seq();
        let ghost start = inventory@;
        let ghost base = missing_views(missing@);
        let mut i: usize = 0;
        proof {
            assert(base + Seq::<MissingView>::empty() =~= base);
        }
        while i < slots.len()
            invariant
                i <= slots@.len(),
                slots@ == layout_slots(recipe.layout),
                tags == self.tag_seq(),
                inventory@ == consume_cells(tags, start, slots@, i as int).0,
                missing_views(missing@) == base + consume_cells(tags, start, slots@, i as int).1,
            decreases slots@.len() - i,
        {
            let slot = &slots[i];
            match &slot.ingredient {
                Ingredient::Empty => {},
                _ => {
                    let ghost before_inv = inventory@;
                    let ghost before_ms = missing_views(missing@);
                    match self.choices(&slot.ingredient) {
                        Err(_) => {
                            let m = Missing { ingredient: describe(&slot.ingredient), count: slot.count, alternatives: Vec::new() };
                            proof {
                                assert(views(m.alternatives@) =~= Seq::<Seq<char>>::empty());
                            }
                            missing.push(m);
                            proof {
                                assert(missing_views(missing@) =~= before_ms.push(m@));
                            }
                        },
                        Ok(choices) => {
                            let order = rank_choices(inventory, &choices);
                            let left = Self::take_units(inventory, &order, slot.count);
                            if left > 0 {
                                let first = if order.len() > 0 { order[0].clone() } else { String::new() };
                                let m = Missing { ingredient: first, count: left, alternatives: order };
                                proof {
                                    if views(m.alternatives@).len() > 0 {
                                        assert(views(m.alternatives@)[0] == m.alternatives@[0]@);
                                    }
                                }
                                missing.push(m);
                                proof {
                                    assert(missing_views(missing@) =~= before_ms.push(m@));
                                }
                            }
                        },
                    }
                },
            }
            i = i + 1;
        }
    }

    /// How many operations of `recipe` in a row `inventory` supports
    /// (counting at most to `u32::MAX`).
    fn maximum_operations(&self, recipe: &Recipe, inventory: &ItemCounts) -> (n: u32)
        ensures
            n == supported_from(self.tag_seq(), inventory@, *recipe, 0),
    {
        let mut copy = inventory.clone();
        let mut n: u32 = 0;
        loop
            invariant
                n < u32::MAX,
                supported_from(self.tag_seq(), inventory@, *recipe, 0) == supported_from(self.tag_seq(), copy@, *recipe, n),
            decreases u32::MAX - n,
        {
            let ghost before = copy@;
            let mut missing: Vec<Missing> = Vec::new();
            self.consume_operation(recipe, &mut copy, &mut missing);
            proof {
                assert(missing_views(Seq::<Missing>::empty()) =~= Seq::<MissingView>::empty());
                assert(Seq::<MissingView>::empty() + consume_operation_spec(self.tag_seq(), before, *recipe).1
                    =~= consume_operation_spec(self.tag_seq(), before, *recipe).1);
            }
            if missing.len() > 0 {
                return n;
            }
            n = n + 1;
            if n == u32::MAX {
                return n;
            }
        }
    }

    /// Whether `recipe` can run `operations` times from `inventory` (left
    /// untouched): at a table the player lacks it cannot run at all;
    /// otherwise how many operations the inventory supports, how many of
    /// the requested ones that covers, and what the requested ones lack,
    /// grouped by ingredient.
    pub fn availability(&self, recipe: &Recipe, inventory: &ItemCounts, table_available: bool, operations: u32) -> (a: Availability)
        ensures
            a.station_required == recipe.station,
            recipe.station == Station::CraftingTable && !table_available ==> a.crafts == 0 && a.maximum_crafts == 0
                && a.missing@.len() == 0 && a.failure == Some(Failure::StationUnavailable(Station::CraftingTable)),
            !(recipe.station == Station::CraftingTable && !table_available) ==> {
                &&& a.failure is None
                &&& a.maximum_crafts == supported_from(self.tag_seq(), inventory@, *recipe, 0)
                &&& a.crafts == if operations < a.maximum_crafts { operations } else { a.maximum_crafts }
                &&& missing_views(a.missing@) == consolidated(consume_repeatedly(self.tag_seq(), inventory@, *recipe, operations as nat).1)
            },
    {
        if recipe.station == Station::CraftingTable && !table_available {
            return Availability {
                crafts: 0,
                maximum_crafts: 0,
                missing: Vec::new(),
                station_required: recipe.station,
                failure: Some(Failure::StationUnavailable(Station::CraftingTable)),
            };
        }
        let mut copy = inventory.clone();
        let maximum = self.maximum_operations(recipe, &copy);
        let mut missing: Vec<Missing> = Vec::new();
        let mut k: u32 = 0;
        proof {
            assert(missing_views(missing@) =~= Seq::<MissingView>::empty());
        }
        while k < operations
            invariant
                k <= operations,
                copy@ == consume_repeatedly(self.tag_seq(), inventory@, *recipe, k as nat).0,
                missing_views(missing@) == consume_repeatedly(self.tag_seq(), inventory@, *recipe, k as nat).1,
            decreases operations - k,
        {
            self.consume_operation(recipe, &mut copy, &mut missing);
            k = k + 1;
        }
        consolidate_missing(&mut missing);
        Availability {
            crafts: if operations < maximum { operations } else { maximum },
            maximum_crafts: maximum,
            missing,
            station_required: recipe.station,
            failure: None,
        }
    }
}

} // verus!
