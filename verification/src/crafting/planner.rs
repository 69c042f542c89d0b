//! The dependency planner: how to craft an item from what is held,
//! crafting missing ingredients first, depth-first, on a virtual copy of the
//! inventory.
use vstd::prelude::*;
use crate::crafting::counts::{ItemCounts, count_of};
use crate::crafting::recipes::{Failure, Ingredient, IngredientSlot, Recipe, RecipeBook, Station,
    views, clone_strings, normalized, layout_slots, ingredients, recipes_making, is_preferred,
    preferred_before, recipes_valid, recipe_error, tag_members, lemma_making_is_valid};
use crate::text::{seq_lt, str_lt, str_equal};

verus! {

/// One production step: run `recipe_id` `operations` times, producing
/// `produced` of `output`.
#[derive(Clone, Debug, PartialEq, Eq)]
pub struct PlanStep {
    pub recipe_id: String,
    pub operations: u32,
    pub output: String,
    pub produced: u32,
}

/// A crafting plan: the steps in the order they must run, what the
/// inventory holds afterwards, and why planning stopped, if it did.
#[derive(Clone, Debug, PartialEq, Eq)]
pub struct CraftPlan {
    pub requested: u32,
    pub steps: Vec<PlanStep>,
    pub remaining: ItemCounts,
    pub failure: Option<Failure>,
}

/// The plain content of a [`Failure`].
pub enum FailureView {
    UnknownRecipe(Seq<char>),
    UnknownItem(Seq<char>),
    DataUnavailable(Seq<char>),
    UnsupportedIngredient(Seq<char>),
    UnsupportedRecipeType(Seq<char>),
    StationUnavailable(Station),
    Cycle(Seq<Seq<char>>),
    DepthLimit(Seq<char>, usize),
}

impl View for Failure {
    type V = FailureView;

    open spec fn view(&self) -> FailureView {
        match self {
            Failure::UnknownRecipe(s) => FailureView::UnknownRecipe(s@),
            Failure::UnknownItem(s) => FailureView::UnknownItem(s@),
            Failure::DataUnavailable { version } => FailureView::DataUnavailable(version@),
            Failure::UnsupportedIngredient(s) => FailureView::UnsupportedIngredient(s@),
            Failure::UnsupportedRecipeType(s) => FailureView::UnsupportedRecipeType(s@),
            Failure::StationUnavailable(st) => FailureView::StationUnavailable(*st),
            Failure::Cycle { path } => FailureView::Cycle(views(path@)),
            Failure::DepthLimit { item, limit } => FailureView::DepthLimit(item@, *limit),
        }
    }
}

/// The plain content of a [`PlanStep`].
pub struct StepView {
    pub recipe_id: Seq<char>,
    pub operations: u32,
    pub output: Seq<char>,
    pub produced: u32,
}

impl View for PlanStep {
    type V = StepView;

    open spec fn view(&self) -> StepView {
        StepView { recipe_id: self.recipe_id@, operations: self.operations, output: self.output@, produced: self.produced }
    }
}

/// The planner's working state: the items being crafted (outermost
/// first), the virtual inventory, and the steps planned so far.
pub struct PlanState {
    pub path: Seq<Seq<char>>,
    pub stock: Map<Seq<char>, u32>,
    pub steps: Seq<StepView>,
}

/// The plain content of planning's working values.
pub open spec fn state_of(path: Seq<String>, stock: Map<Seq<char>, u32>, steps: Seq<PlanStep>) -> PlanState {
    PlanState { path: views(path), stock, steps: steps.map_values(|s: PlanStep| s@) }
}

/// The plain content of a planning outcome.
pub open spec fn outcome_of(r: Result<(), Failure>) -> Result<(), FailureView> {
    match r {
        Ok(()) => Ok(()),
        Err(f) => Err(f@),
    }
}

/// `x`, or `u32::MAX` when it is larger.
pub open spec fn saturated(x: int) -> u32 {
    if x > u32::MAX {
        u32::MAX
    } else {
        x as u32
    }
}

/// `a * b`, saturating at `u32::MAX`.
pub fn saturating_product(a: u32, b: u32) -> (r: u32)
    ensures
        r == saturated(a * b),
{
    assert((a as u64) * (b as u64) <= 0xFFFF_FFFFu64 * 0xFFFF_FFFFu64) by (nonlinear_arith);
    let wide: u64 = (a as u64) * (b as u64);
    if wide > u32::MAX as u64 {
        u32::MAX
    } else {
        wide as u32
    }
}

/// `a + b`, saturating at `u32::MAX`.
pub fn saturating_sum(a: u32, b: u32) -> (r: u32)
    ensures
        r == saturated(a + b),
{
    let wide: u64 = a as u64 + b as u64;
    if wide > u32::MAX as u64 {
        u32::MAX
    } else {
        wide as u32
    }
}

/// Whether some recipe outputs `item`.
pub open spec fn has_recipe_for(recipes: Seq<Recipe>, item: Seq<char>) -> bool {
    exists|i: int| 0 <= i < recipes.len() && (#[trigger] recipes[i]).output@ == item
}

/// The order among an ingredient's alternatives: more held first, then
/// one that some recipe makes, then by id.
pub open spec fn choice_before(recipes: Seq<Recipe>, stock: Map<Seq<char>, u32>, a: Seq<char>, b: Seq<char>) -> bool {
    let ca = count_of(stock, a);
    let cb = count_of(stock, b);
    if ca != cb {
        ca > cb
    } else if has_recipe_for(recipes, a) != has_recipe_for(recipes, b) {
        has_recipe_for(recipes, a)
    } else {
        seq_lt(a, b)
    }
}

/// The first alternative no other alternative comes before.
pub open spec fn best_choice(recipes: Seq<Recipe>, stock: Map<Seq<char>, u32>, cs: Seq<Seq<char>>) -> Seq<char>
    decreases cs.len(),
{
    if cs.len() <= 1 {
        cs[0]
    } else {
        let b = best_choice(recipes, stock, cs.drop_last());
        if choice_before(recipes, stock, cs.last(), b) {
            cs.last()
        } else {
            b
        }
    }
}

/// The items an ingredient may be satisfied with: an unknown tag or a
/// special ingredient cannot be planned.
pub open spec fn choices_of(tags: Seq<(String, Vec<String>)>, ingredient: Ingredient) -> Result<Seq<Seq<char>>, FailureView> {
    match ingredient {
        Ingredient::Item(i) => Ok(seq![i@]),
        Ingredient::Alternatives(v) => Ok(views(v@)),
        Ingredient::Tag(t) => match tag_members(tags, t@) {
            Some(m) => Ok(m),
            None => Err(FailureView::UnsupportedIngredient("unknown tag "@ + t@)),
        },
        Ingredient::Special(p) => Err(FailureView::UnsupportedIngredient(p@)),
        Ingredient::Empty => Ok(Seq::empty()),
    }
}

/// The most preferred of `candidates`.
pub open spec fn preferred_recipe(candidates: Seq<Recipe>) -> Recipe {
    choose|r: Recipe| is_preferred(candidates, r)
}

/// `need` rounded up to whole operations of `per_operation`.
pub open spec fn operations_needed(need: int, per_operation: int) -> int {
    (need + per_operation - 1) / per_operation
}

/// Making `count` of `item` available at `depth`: take it from the stock
/// when enough is held; otherwise, below the depth limit and outside a
/// cycle, run the preferred recipe enough times for what is lacking, after
/// securing each ingredient (in cell order, each from its best
/// alternative), and keep the surplus. Arithmetic saturates at `u32::MAX`.
pub open spec fn ensure_spec(recipes: Seq<Recipe>, tags: Seq<(String, Vec<String>)>, item: Seq<char>, count: u32,
    table: bool, limit: usize, depth: int, st: PlanState) -> (Result<(), FailureView>, PlanState)
    decreases limit - depth, 1int, 0int,
{
    let held = count_of(st.stock, item);
    if held >= count {
        (Ok(()), PlanState { stock: st.stock.insert(item, (held - count) as u32), ..st })
    } else {
        let need = count - held;
        let st1 = PlanState { stock: st.stock.remove(item), ..st };
        if depth >= limit {
            (Err(FailureView::DepthLimit(item, limit)), st1)
        } else if st.path.contains(item) {
            (Err(FailureView::Cycle(st.path.push(item))), st1)
        } else {
            let candidates = recipes_making(recipes, normalized(item));
            if candidates.len() == 0 {
                (Err(FailureView::UnknownItem(normalized(item))), st1)
            } else {
                let r = preferred_recipe(candidates);
                if r.station == Station::CraftingTable && !table {
                    (Err(FailureView::StationUnavailable(Station::CraftingTable)), st1)
                } else {
                    let ops = operations_needed(need, r.output_count as int);
                    let st2 = PlanState { path: st1.path.push(item), ..st1 };
                    after_slots(item, need, r, ops, slots_spec(recipes, tags, layout_slots(r.layout), 0, ops as u32, table, limit, depth, st2))
                }
            }
        }
    }
}

/// What making `item` comes to once its recipe's ingredients were
/// secured (or failed to be): on success, the item leaves the path, the
/// surplus joins the stock, and the step is recorded.
pub open spec fn after_slots(item: Seq<char>, need: int, r: Recipe, ops: int,
    outcome: (Result<(), FailureView>, PlanState)) -> (Result<(), FailureView>, PlanState)
{
    let (res, st3) = outcome;
    match res {
        Err(e) => (Err(e), st3),
        Ok(_) => {
            let produced = saturated(ops * r.output_count);
            (Ok(()), PlanState {
                path: st3.path.drop_last(),
                stock: st3.stock.insert(item, saturated(count_of(st3.stock, item) + produced - need)),
                steps: st3.steps.push(StepView { recipe_id: r.id@, operations: ops as u32, output: item, produced }),
            })
        },
    }
}

/// Securing the ingredients of cells `i..` of a recipe run `ops` times at
/// `depth` (never reached at the depth limit itself).
pub open spec fn slots_spec(recipes: Seq<Recipe>, tags: Seq<(String, Vec<String>)>, slots: Seq<IngredientSlot>, i: int,
    ops: u32, table: bool, limit: usize, depth: int, st: PlanState) -> (Result<(), FailureView>, PlanState)
    decreases limit - depth, 0int, slots.len() - i,
{
    if depth >= limit || i < 0 || i >= slots.len() {
        (Ok(()), st)
    } else {
        let slot = slots[i];
        if slot.ingredient is Empty {
            slots_spec(recipes, tags, slots, i + 1, ops, table, limit, depth, st)
        } else {
            let amount = saturated(slot.count * ops);
            match choices_of(tags, slot.ingredient) {
                Err(e) => (Err(e), st),
                Ok(cs) => if cs.len() == 0 {
                    (Err(FailureView::UnsupportedIngredient("empty alternatives"@)), st)
                } else {
                    let choice = best_choice(recipes, st.stock, cs);
                    let (res, st2) = ensure_spec(recipes, tags, choice, amount, table, limit, depth + 1, st);
                    match res {
                        Err(e) => (Err(e), st2),
                        Ok(_) => slots_spec(recipes, tags, slots, i + 1, ops, table, limit, depth, st2),
                    }
                },
            }
        }
    }
}

/// A successful `ensure_spec` leaves the path as it found it.
pub proof fn lemma_ensure_keeps_path(recipes: Seq<Recipe>, tags: Seq<(String, Vec<String>)>, item: Seq<char>, count: u32,
    table: bool, limit: usize, depth: int, st: PlanState)
    ensures
        ensure_spec(recipes, tags, item, count, table, limit, depth, st).0 is Ok
            ==> ensure_spec(recipes, tags, item, count, table, limit, depth, st).1.path == st.path,
    decreases limit - depth, 1int, 0int,
{
    let held = count_of(st.stock, item);
    if held < count && depth < limit && !st.path.contains(item) {
        let candidates = recipes_making(recipes, normalized(item));
        if candidates.len() > 0 {
            let r = preferred_recipe(candidates);
            if !(r.station == Station::CraftingTable && !table) {
                let need = count - held;
                let ops = operations_needed(need, r.output_count as int);
                let st1 = PlanState { stock: st.stock.remove(item), ..st };
                let st2 = PlanState { path: st1.path.push(item), ..st1 };
                lemma_slots_keep_path(recipes, tags, layout_slots(r.layout), 0, ops as u32, table, limit, depth, st2);
                assert(st2.path.drop_last() =~= st.path);
            }
        }
    }
}

/// Successfully securing a recipe's ingredients leaves the path as it
/// found it.
pub proof fn lemma_slots_keep_path(recipes: Seq<Recipe>, tags: Seq<(String, Vec<String>)>, slots: Seq<IngredientSlot>, i: int,
    ops: u32, table: bool, limit: usize, depth: int, st: PlanState)
    ensures
        slots_spec(recipes, tags, slots, i, ops, table, limit, depth, st).0 is Ok
            ==> slots_spec(recipes, tags, slots, i, ops, table, limit, depth, st).1.path == st.path,
    decreases limit - depth, 0int, slots.len() - i,
{
    if !(depth >= limit || i < 0 || i >= slots.len()) {
        let slot = slots[i];
        if slot.ingredient is Empty {
            lemma_slots_keep_path(recipes, tags, slots, i + 1, ops, table, limit, depth, st);
        } else {
            let amount = saturated(slot.count * ops);
            match choices_of(tags, slot.ingredient) {
                Err(e) => {},
                Ok(cs) => if cs.len() > 0 {
                    let choice = best_choice(recipes, st.stock, cs);
                    lemma_ensure_keeps_path(recipes, tags, choice, amount, table, limit, depth + 1, st);
                    let (res, st2) = ensure_spec(recipes, tags, choice, amount, table, limit, depth + 1, st);
                    lemma_slots_keep_path(recipes, tags, slots, i + 1, ops, table, limit, depth, st2);
                },
            }
        }
    }
}

/// There is exactly one most preferred recipe among valid candidates.
pub proof fn lemma_preferred_unique(candidates: Seq<Recipe>, r: Recipe)
    requires
        recipes_valid(candidates),
        is_preferred(candidates, r),
    ensures
        preferred_recipe(candidates) == r,
{
    let p = preferred_recipe(candidates);
    assert(is_preferred(candidates, p));
    let i = choose|i: int| 0 <= i < candidates.len() && candidates[i] == r;
    let j = choose|j: int| 0 <= j < candidates.len() && candidates[j] == p;
    if i != j {
        if i < j {
            assert(candidates[i].id@ != candidates[j].id@);
        } else {
            assert(candidates[j].id@ != candidates[i].id@);
        }
        assert(preferred_before(r, p));
        assert(preferred_before(p, r));
        lemma_preferred_asymmetric(r, p);
    }
}

/// The preference order is asymmetric.
pub proof fn lemma_preferred_asymmetric(a: Recipe, b: Recipe)
    requires
        preferred_before(a, b),
    ensures
        !preferred_before(b, a),
{
    if a.known == b.known && a.special == b.special
        && (a.station == Station::CraftingTable) == (b.station == Station::CraftingTable) {
        crate::text::lemma_seq_lt_asymmetric(a.id@, b.id@);
    }
}

/// Whether some recipe in `recipes` outputs `item`.
fn makes_item(recipes: &Vec<Recipe>, item: &str) -> (r: bool)
    ensures
        r == has_recipe_for(recipes@, item@),
{
    let mut i: usize = 0;
    while i < recipes.len()
        invariant
            i <= recipes@.len(),
            forall|k: int| 0 <= k < i ==> (#[trigger] recipes@[k]).output@ != item@,
        decreases recipes@.len() - i,
    {
        if str_equal(recipes[i].output.as_str(), item) {
            return true;
        }
        i = i + 1;
    }
    false
}

/// Whether `path` holds `item`.
fn path_holds(path: &Vec<String>, item: &str) -> (r: bool)
    ensures
        r == views(path@).contains(item@),
{
    let mut i: usize = 0;
    while i < path.len()
        invariant
            i <= path@.len(),
            forall|k: int| 0 <= k < i ==> (#[trigger] path@[k])@ != item@,
        decreases path@.len() - i,
    {
        if str_equal(path[i].as_str(), item) {
            proof {
                assert(views(path@)[i as int] == item@);
            }
            return true;
        }
        i = i + 1;
    }
    proof {
        if views(path@).contains(item@) {
            let k = choose|k: int| 0 <= k < views(path@).len() && views(path@)[k] == item@;
            assert(path@[k]@ == item@);
        }
    }
    false
}

/// `"unknown tag "` followed by `tag`.
fn unknown_tag(tag: &String) -> (s: String)
    ensures
        s@ == "unknown tag "@ + tag@,
{
    let mut s = String::from_str("unknown tag ");
    s.append(tag.as_str());
    s
}

impl RecipeBook {
    /// The items `ingredient` may be satisfied with ([`choices_of`]).
    pub fn choices(&self, ingredient: &Ingredient) -> (r: Result<Vec<String>, Failure>)
        ensures
            match choices_of(self.tag_seq(), *ingredient) {
                Ok(cs) => r matches Ok(v) && views(v@) == cs,
                Err(e) => r matches Err(f) && f@ == e,
            },
    {
        match ingredient {
            Ingredient::Item(i) => {
                let mut v: Vec<String> = Vec::new();
                v.push(i.clone());
                proof {
                    assert(views(v@) =~= seq![i@]);
                }
                Ok(v)
            },
            Ingredient::Alternatives(v) => Ok(clone_strings(v)),
            Ingredient::Tag(t) => {
                let tags = self.tag_list();
                let mut k: usize = tags.len();
                proof {
                    assert(tags@.take(tags@.len() as int) =~= tags@);
                }
                while k > 0
                    invariant
                        *ingredient == Ingredient::Tag(*t),
                        k <= tags@.len(),
                        tags@ == self.tag_seq(),
                        tag_members(tags@, t@) == tag_members(tags@.take(k as int), t@),
                    decreases k,
                {
                    proof {
                        assert(tags@.take(k as int).drop_last() =~= tags@.take(k - 1));
                        assert(tags@.take(k as int).last() == tags@[k - 1]);
                    }
                    if str_equal(tags[k - 1].0.as_str(), t.as_str()) {
                        let members = clone_strings(&tags[k - 1].1);
                        proof {
                            assert(tags@.take(k as int).last().0@ == t@);
                            assert(tag_members(tags@.take(k as int), t@) == Some(views(tags@[k - 1].1@)));
                            assert(tag_members(self.tag_seq(), t@) == Some(views(tags@[k - 1].1@)));
                            assert(views(members@) == views(tags@[k - 1].1@));
                        }
                        return Ok(members);
                    }
                    k = k - 1;
                }
                Err(Failure::UnsupportedIngredient(unknown_tag(t)))
            },
            Ingredient::Special(p) => Err(Failure::UnsupportedIngredient(p.clone())),
            Ingredient::Empty => {
                let v: Vec<String> = Vec::new();
                proof {
                    assert(views(v@) =~= Seq::<Seq<char>>::empty());
                }
                Ok(v)
            },
        }
    }

    /// The position of the [`best_choice`] among `choices`.
    fn best_choice_index(&self, choices: &Vec<String>, stock: &ItemCounts) -> (r: usize)
        requires
            choices@.len() > 0,
        ensures
            r < choices@.len(),
            choices@[r as int]@ == best_choice(self.recipe_seq(), stock@, views(choices@)),
    {
        let recipes = self.recipe_list();
        let ghost cs = views(choices@);
        let mut best: usize = 0;
        let mut i: usize = 1;
        proof {
            assert(cs.take(1).len() == 1);
            assert(best_choice(recipes@, stock@, cs.take(1)) == cs[0]);
        }
        while i < choices.len()
            invariant
                1 <= i <= choices@.len(),
                best < i,
                cs == views(choices@),
                recipes@ == self.recipe_seq(),
                cs[best as int] == best_choice(recipes@, stock@, cs.take(i as int)),
            decreases choices@.len() - i,
        {
            let ca = stock.get(choices[i].as_str());
            let cb = stock.get(choices[best].as_str());
            let before = if ca != cb {
                ca > cb
            } else {
                let ha = makes_item(recipes, choices[i].as_str());
                let hb = makes_item(recipes, choices[best].as_str());
                if ha != hb {
                    ha
                } else {
                    str_lt(choices[i].as_str(), choices[best].as_str())
                }
            };
            proof {
                assert(cs.take(i + 1).drop_last() =~= cs.take(i as int));
                assert(cs.take(i + 1).last() == cs[i as int]);
                assert(cs[i as int] == choices@[i as int]@);
                assert(cs[best as int] == choices@[best as int]@);
            }
            if before {
                best = i;
            }
            i = i + 1;
        }
        proof {
            assert(cs.take(choices@.len() as int) =~= cs);
        }
        best
    }

    /// Executable form of [`ensure_spec`], on the working values.
    fn ensure(&self, item: &str, count: u32, table: bool, limit: usize, depth: usize,
        path: &mut Vec<String>, stock: &mut ItemCounts, steps: &mut Vec<PlanStep>) -> (r: Result<(), Failure>)
        ensures
            (outcome_of(r), state_of(final(path)@, final(stock)@, final(steps)@))
                == ensure_spec(self.recipe_seq(), self.tag_seq(), item@, count, table, limit, depth as int,
                    state_of(old(path)@, old(stock)@, old(steps)@)),
        decreases limit - depth,
    {
        let ghost recipes_s = self.recipe_seq();
        let ghost tags_s = self.tag_seq();
        let ghost st = state_of(path@, stock@, steps@);
        let held = stock.get(item);
        if held >= count {
            stock.insert(item.to_owned(), held - count);
            return Ok(());
        }
        let need = count - held;
        stock.remove(item);
        if depth >= limit {
            return Err(Failure::DepthLimit { item: item.to_owned(), limit });
        }
        if path_holds(path, item) {
            let mut p = clone_strings(path);
            p.push(item.to_owned());
            proof {
                assert(views(p@) =~= views(path@).push(item@));
            }
            return Err(Failure::Cycle { path: p });
        }
        let recipe = match self.preferred(item) {
            Ok(found) => found,
            Err(e) => {
                return Err(e);
            },
        };
        let ghost candidates = recipes_making(recipes_s, normalized(item@));
        let _all = self.recipe_list();
        proof {
            lemma_making_is_valid(recipes_s, normalized(item@));
            lemma_preferred_unique(candidates, *recipe);
            assert(recipes_s.contains(*recipe));
            let k = choose|k: int| 0 <= k < recipes_s.len() && recipes_s[k] == *recipe;
            assert(recipe_error(recipes_s[k]) is None);
        }
        if recipe.station == Station::CraftingTable && !table {
            return Err(Failure::StationUnavailable(Station::CraftingTable));
        }
        let out = recipe.output_count;
        let out64: u64 = out as u64;
        let total: u64 = need as u64 + out64 - 1;
        let ops64: u64 = total / out64;
        proof {
            assert(ops64 <= need) by (nonlinear_arith)
                requires
                    out64 >= 1,
                    total == need + out64 - 1,
                    ops64 == total / out64,
            ;
        }
        let operations = ops64 as u32;
        path.push(item.to_owned());
        let ghost st2 = state_of(path@, stock@, steps@);
        proof {
            assert(views(path@) =~= st.path.push(item@));
        }
        let slots = ingredients(&recipe.layout);
        let mut i: usize = 0;
        while i < slots.len()
            invariant
                i <= slots@.len(),
                slots@ == layout_slots(recipe.layout),
                depth < limit,
                recipes_s == self.recipe_seq(),
                tags_s == self.tag_seq(),
                slots_spec(recipes_s, tags_s, slots@, i as int, operations, table, limit, depth as int, state_of(path@, stock@, steps@))
                    == slots_spec(recipes_s, tags_s, slots@, 0, operations, table, limit, depth as int, st2),
                st == state_of(old(path)@, old(stock)@, old(steps)@),
                ensure_spec(recipes_s, tags_s, item@, count, table, limit, depth as int, st)
                    == after_slots(item@, need as int, *recipe, operations as int,
                        slots_spec(recipes_s, tags_s, slots@, i as int, operations, table, limit, depth as int, state_of(path@, stock@, steps@))),
            decreases slots@.len() - i,
        {
            let slot = &slots[i];
            match &slot.ingredient {
                Ingredient::Empty => {
                    i = i + 1;
                },
                _ => {
                    let amount = saturating_product(slot.count, operations);
                    let choices = match self.choices(&slot.ingredient) {
                        Ok(c) => c,
                        Err(e) => {
                            return Err(e);
                        },
                    };
                    if choices.len() == 0 {
                        let msg = String::from_str("empty alternatives");
                        proof {
                            reveal_strlit("empty alternatives");
                        }
                        return Err(Failure::UnsupportedIngredient(msg));
                    }
                    let b = self.best_choice_index(&choices, stock);
                    match self.ensure(choices[b].as_str(), amount, table, limit, depth + 1, path, stock, steps) {
                        Err(e) => {
                            return Err(e);
                        },
                        Ok(()) => {},
                    }
                    i = i + 1;
                },
            }
        }
        let ghost st3 = state_of(path@, stock@, steps@);
        proof {
            lemma_slots_keep_path(recipes_s, tags_s, slots@, 0, operations, table, limit, depth as int, st2);
            assert(st3.path == st2.path);
            assert(out as int * ops64 as int >= need) by (nonlinear_arith)
                requires
                    out >= 1,
                    total == need + out - 1,
                    ops64 == total / out64,
                    out64 == out,
            ;
        }
        path.pop();
        proof {
            assert(views(path@) =~= st3.path.drop_last());
        }
        let produced = saturating_product(operations, out);
        let current = stock.get(item);
        stock.insert(item.to_owned(), saturating_sum(current, produced - need));
        let step = PlanStep { recipe_id: recipe.id.clone(), operations, output: item.to_owned(), produced };
        let ghost old_steps = steps@;
        steps.push(step);
        proof {
            assert(steps@.map_values(|s: PlanStep| s@) =~= old_steps.map_values(|s: PlanStep| s@).push(step@));
        }
        Ok(())
    }

    /// Plans crafting `count` of `output` (normalised) from `inventory`,
    /// without touching it: the steps, the inventory they leave, and the
    /// failure that stopped planning, if any -- all as [`ensure_spec`]
    /// describes, from an empty path and the inventory's counts.
    pub fn plan(&self, output: &str, count: u32, inventory: &ItemCounts, table_available: bool, max_depth: usize) -> (p: CraftPlan)
        ensures
            p.requested == count,
            ({
                let (res, st) = ensure_spec(self.recipe_seq(), self.tag_seq(), normalized(output@), count, table_available,
                    max_depth, 0, PlanState { path: Seq::empty(), stock: inventory@, steps: Seq::empty() });
                &&& p.steps@.map_values(|s: PlanStep| s@) == st.steps
                &&& p.remaining@ == st.stock
                &&& match res {
                    Ok(_) => p.failure is None,
                    Err(e) => p.failure matches Some(f) && f@ == e,
                }
            }),
    {
        let mut stock = inventory.clone();
        let mut steps: Vec<PlanStep> = Vec::new();
        let mut path: Vec<String> = Vec::new();
        let item = crate::crafting::recipes::normalize(output);
        proof {
            assert(views(path@) =~= Seq::<Seq<char>>::empty());
            assert(steps@.map_values(|s: PlanStep| s@) =~= Seq::<StepView>::empty());
        }
        let outcome = self.ensure(item.as_str(), count, table_available, max_depth, 0, &mut path, &mut stock, &mut steps);
        let failure = match outcome {
            Ok(()) => None,
            Err(f) => Some(f),
        };
        CraftPlan { requested: count, steps, remaining: stock, failure }
    }
}

} // verus!
