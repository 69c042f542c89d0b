//! Food selection for the healing flow.
use vstd::prelude::*;
use crate::text::str_equal;

verus! {

/// One held food, as the inventory reader reports it.
#[derive(Clone, Copy, Debug, PartialEq)]
pub struct FoodOption<'a> {
    pub slot: usize,
    pub item_id: &'a str,
    pub nutrition: i32,
}

/// The named foods, best first: the golden apple for its regeneration,
/// then the common meats from most to least nutritious, then bread.
pub open spec fn named_priority() -> Seq<Seq<char>> {
    seq![
        "minecraft:golden_apple"@,
        "minecraft:cooked_beef"@,
        "minecraft:cooked_porkchop"@,
        "minecraft:cooked_mutton"@,
        "minecraft:cooked_chicken"@,
        "minecraft:bread"@,
    ]
}

fn named_priority_list() -> (v: Vec<&'static str>)
    ensures
        v@.len() == named_priority().len(),
        forall|i: int| 0 <= i < v@.len() ==> v@[i]@ == named_priority()[i],
{
    vec![
        "minecraft:golden_apple",
        "minecraft:cooked_beef",
        "minecraft:cooked_porkchop",
        "minecraft:cooked_mutton",
        "minecraft:cooked_chicken",
        "minecraft:bread",
    ]
}

/// Whether some candidate is the named food `name`.
pub open spec fn holds(candidates: Seq<FoodOption>, name: Seq<char>) -> bool {
    exists|i: int| 0 <= i < candidates.len() && candidates[i].item_id@ == name
}

/// Whether candidate `i` is the first candidate that is the `p`-th named
/// food, and no better-named food is held.
pub open spec fn is_named_choice(candidates: Seq<FoodOption>, p: int, i: int) -> bool {
    &&& 0 <= p < named_priority().len()
    &&& 0 <= i < candidates.len()
    &&& candidates[i].item_id@ == named_priority()[p]
    &&& forall|j: int| 0 <= j < i ==> candidates[j].item_id@ != named_priority()[p]
    &&& forall|q: int| 0 <= q < p ==> !holds(candidates, #[trigger] named_priority()[q])
}

/// Whether candidate `i` is the first one of the highest nutrition.
pub open spec fn is_nutrition_choice(candidates: Seq<FoodOption>, i: int) -> bool {
    &&& 0 <= i < candidates.len()
    &&& forall|j: int| 0 <= j < candidates.len() ==> candidates[j].nutrition <= candidates[i].nutrition
    &&& forall|j: int| 0 <= j < i ==> candidates[j].nutrition < candidates[i].nutrition
}

/// Whether any named food is held.
pub open spec fn holds_named(candidates: Seq<FoodOption>) -> bool {
    exists|q: int| 0 <= q < named_priority().len() && holds(candidates, #[trigger] named_priority()[q])
}

fn find_named(candidates: &[FoodOption], name: &str) -> (r: Option<usize>)
    ensures
        r is Some ==> r->0 < candidates@.len() && candidates@[r->0 as int].item_id@ == name@
            && forall|j: int| 0 <= j < r->0 ==> candidates@[j].item_id@ != name@,
        r is None ==> !holds(candidates@, name@),
{
    let mut i: usize = 0;
    while i < candidates.len()
        invariant
            i <= candidates.len(),
            forall|j: int| 0 <= j < i ==> candidates@[j].item_id@ != name@,
        decreases candidates.len() - i,
    {
        if str_equal(candidates[i].item_id, name) {
            return Some(i);
        }
        i = i + 1;
    }
    None
}

/// The best food to eat: the highest-priority named food held (its first
/// occurrence), else the most nutritious food held (the first on ties),
/// else `None`.
pub fn best_food<'a>(candidates: &[FoodOption<'a>]) -> (best: Option<FoodOption<'a>>)
    ensures
        candidates@.len() == 0 ==> best is None,
        holds_named(candidates@) ==> exists|p: int, i: int| is_named_choice(candidates@, p, i) && best == Some(candidates@[i]),
        !holds_named(candidates@) && candidates@.len() > 0 ==> exists|i: int| is_nutrition_choice(candidates@, i) && best == Some(candidates@[i]),
{
    let names = named_priority_list();
    let mut p: usize = 0;
    while p < names.len()
        invariant
            p <= names.len(),
            names@.len() == named_priority().len(),
            forall|i: int| 0 <= i < names@.len() ==> names@[i]@ == named_priority()[i],
            forall|q: int| 0 <= q < p ==> !holds(candidates@, #[trigger] named_priority()[q]),
        decreases names.len() - p,
    {
        match find_named(candidates, names[p]) {
            Some(i) => {
                assert(is_named_choice(candidates@, p as int, i as int));
                return Some(candidates[i]);
            },
            None => {},
        }
        p = p + 1;
    }
    assert(!holds_named(candidates@));
    if candidates.len() == 0 {
        return None;
    }
    let mut best: usize = 0;
    let mut i: usize = 1;
    while i < candidates.len()
        invariant
            1 <= i <= candidates.len(),
            best < i,
            forall|j: int| 0 <= j < i ==> candidates@[j].nutrition <= candidates@[best as int].nutrition,
            forall|j: int| 0 <= j < best ==> candidates@[j].nutrition < candidates@[best as int].nutrition,
        decreases candidates.len() - i,
    {
        if candidates[i].nutrition > candidates[best].nutrition {
            best = i;
        }
        i = i + 1;
    }
    assert(is_nutrition_choice(candidates@, best as int));
    Some(candidates[best])
}

} // verus!
