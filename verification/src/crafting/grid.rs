//! Resolving a recipe into concrete grid placements for execution.
use vstd::prelude::*;
use crate::crafting::counts::{ItemCounts, count_of};
use crate::crafting::recipes::{Failure, Ingredient, IngredientSlot, Recipe, RecipeBook, RecipeLayout,
    views, normalized, layout_slots, ingredients, recipes_making, recipes_valid, lemma_making_is_valid};
use crate::crafting::planner::{FailureView, choices_of, preferred_recipe, lemma_preferred_unique};
use crate::crafting::execution::{IngredientPlacement, ResolvedCraftPlan};

verus! {

/// The plain content of an [`IngredientPlacement`].
pub struct PlacementView {
    pub item: Seq<char>,
    pub row: u8,
    pub column: u8,
}

impl View for IngredientPlacement {
    type V = PlacementView;

    open spec fn view(&self) -> PlacementView {
        PlacementView { item: self.item@, row: self.row, column: self.column }
    }
}

/// The alternative held most often (the last of equals).
pub open spec fn most_held(stock: Map<Seq<char>, u32>, cs: Seq<Seq<char>>) -> Seq<char>
    decreases cs.len(),
{
    if cs.len() <= 1 {
        cs[0]
    } else {
        let b = most_held(stock, cs.drop_last());
        if count_of(stock, cs.last()) >= count_of(stock, b) {
            cs.last()
        } else {
            b
        }
    }
}

/// The concrete item an ingredient is placed as: the alternative held
/// most often.
pub open spec fn picked(tags: Seq<(String, Vec<String>)>, stock: Map<Seq<char>, u32>, ingredient: Ingredient) -> Result<Seq<char>, FailureView> {
    match choices_of(tags, ingredient) {
        Err(e) => Err(e),
        Ok(cs) => if cs.len() == 0 {
            Err(FailureView::UnsupportedIngredient("empty alternatives"@))
        } else {
            Ok(most_held(stock, cs))
        },
    }
}

/// The non-empty cells of `slots`, each with its position in `slots`.
pub open spec fn filled_cells(slots: Seq<IngredientSlot>) -> Seq<(int, IngredientSlot)>
    decreases slots.len(),
{
    if slots.len() == 0 {
        Seq::empty()
    } else if slots.last().ingredient is Empty {
        filled_cells(slots.drop_last())
    } else {
        filled_cells(slots.drop_last()).push((slots.len() - 1, slots.last()))
    }
}

/// `cells` numbered in order, dropping their original positions.
pub open spec fn renumbered(cells: Seq<(int, IngredientSlot)>) -> Seq<(int, IngredientSlot)> {
    Seq::new(cells.len(), |k: int| (k, cells[k].1))
}

/// `n` copies of one placement.
pub open spec fn copies(item: Seq<char>, row: u8, column: u8, n: int) -> Seq<PlacementView> {
    Seq::new(n as nat, |k: int| PlacementView { item, row, column })
}

/// The placements for `cells` on a grid `width` wide: each cell at row
/// `index / width`, column `index % width` (the index taken as a byte),
/// its picked item once per unit it needs; the first pick that fails
/// fails the whole.
pub open spec fn placements_for(tags: Seq<(String, Vec<String>)>, stock: Map<Seq<char>, u32>,
    cells: Seq<(int, IngredientSlot)>, width: u8) -> Result<Seq<PlacementView>, FailureView>
    decreases cells.len(),
{
    if cells.len() == 0 {
        Ok(Seq::empty())
    } else {
        match placements_for(tags, stock, cells.drop_last(), width) {
            Err(e) => Err(e),
            Ok(ps) => {
                let (index, slot) = cells.last();
                match picked(tags, stock, slot.ingredient) {
                    Err(e) => Err(e),
                    Ok(item) => Ok(ps + copies(item, (index as u8) / width, (index as u8) % width, slot.count as int)),
                }
            },
        }
    }
}

/// A recipe's placements: a shaped recipe's cells where its shape puts
/// them; a shapeless recipe's packed row-major on a grid 2 wide when they
/// fit in four cells, 3 wide otherwise.
pub open spec fn recipe_placements(tags: Seq<(String, Vec<String>)>, stock: Map<Seq<char>, u32>, r: Recipe) -> Result<Seq<PlacementView>, FailureView> {
    match r.layout {
        RecipeLayout::Shaped { width, ingredients, .. } => placements_for(tags, stock, filled_cells(ingredients@), width),
        RecipeLayout::Shapeless { ingredients } => {
            let cells = filled_cells(ingredients@);
            placements_for(tags, stock, renumbered(cells), if cells.len() <= 4 { 2u8 } else { 3u8 })
        },
    }
}

/// The cells of the first `i` slots, numbered as the layout numbers them.
pub open spec fn cells_upto(slots: Seq<IngredientSlot>, i: int, shaped: bool) -> Seq<(int, IngredientSlot)> {
    if shaped {
        filled_cells(slots.take(i))
    } else {
        renumbered(filled_cells(slots.take(i)))
    }
}

proof fn lemma_cells_upto_step(slots: Seq<IngredientSlot>, i: int, shaped: bool)
    requires
        0 <= i < slots.len(),
    ensures
        cells_upto(slots, i + 1, shaped) == if slots[i].ingredient is Empty {
            cells_upto(slots, i, shaped)
        } else {
            cells_upto(slots, i, shaped).push((if shaped { i } else { filled_cells(slots.take(i)).len() as int }, slots[i]))
        },
{
    lemma_filled_cells_step(slots, i);
    let c = filled_cells(slots.take(i));
    if !(slots[i].ingredient is Empty) && !shaped {
        assert(renumbered(c.push((i, slots[i]))) =~= renumbered(c).push((c.len() as int, slots[i])));
    }
}

proof fn lemma_failure_persists(tags: Seq<(String, Vec<String>)>, stock: Map<Seq<char>, u32>, slots: Seq<IngredientSlot>,
    i: int, width: u8, shaped: bool, e: FailureView)
    requires
        0 <= i <= slots.len(),
        placements_for(tags, stock, cells_upto(slots, i, shaped), width) == Err::<Seq<PlacementView>, FailureView>(e),
    ensures
        placements_for(tags, stock, cells_upto(slots, slots.len() as int, shaped), width) == Err::<Seq<PlacementView>, FailureView>(e),
    decreases slots.len() - i,
{
    if i < slots.len() {
        lemma_cells_upto_step(slots, i, shaped);
        if !(slots[i].ingredient is Empty) {
            let next = cells_upto(slots, i + 1, shaped);
            assert(next.drop_last() =~= cells_upto(slots, i, shaped));
        }
        lemma_failure_persists(tags, stock, slots, i + 1, width, shaped, e);
    }
}

proof fn lemma_filled_cells_len(slots: Seq<IngredientSlot>)
    ensures
        filled_cells(slots).len() <= slots.len(),
    decreases slots.len(),
{
    if slots.len() > 0 {
        lemma_filled_cells_len(slots.drop_last());
    }
}

proof fn lemma_filled_cells_step(slots: Seq<IngredientSlot>, i: int)
    requires
        0 <= i < slots.len(),
    ensures
        slots.take(i + 1).drop_last() == slots.take(i),
        slots.take(i + 1).last() == slots[i],
        filled_cells(slots.take(i + 1)) == if slots[i].ingredient is Empty {
            filled_cells(slots.take(i))
        } else {
            filled_cells(slots.take(i)).push((i, slots[i]))
        },
{
    assert(slots.take(i + 1).drop_last() =~= slots.take(i));
}

impl RecipeBook {
    /// The alternative of `ingredient` held most often ([`picked`]).
    fn pick_ingredient(&self, ingredient: &Ingredient, stock: &ItemCounts) -> (r: Result<String, Failure>)
        ensures
            match picked(self.tag_seq(), stock@, *ingredient) {
                Ok(item) => r matches Ok(s) && s@ == item,
                Err(e) => r matches Err(f) && f@ == e,
            },
    {
        let choices = match self.choices(ingredient) {
            Ok(c) => c,
            Err(e) => {
                return Err(e);
            },
        };
        let ghost cs = views(choices@);
        if choices.len() == 0 {
            let msg = String::from_str("empty alternatives");
            proof {
                reveal_strlit("empty alternatives");
            }
            return Err(Failure::UnsupportedIngredient(msg));
        }
        let mut best: usize = 0;
        let mut best_count = stock.get(choices[0].as_str());
        let mut i: usize = 1;
        proof {
            assert(cs.take(1).len() == 1);
            assert(cs.take(1)[0] == cs[0]);
        }
        while i < choices.len()
            invariant
                1 <= i <= choices@.len(),
                best < i,
                cs == views(choices@),
                cs[best as int] == most_held(stock@, cs.take(i as int)),
                best_count == count_of(stock@, cs[best as int]),
            decreases choices@.len() - i,
        {
            let c = stock.get(choices[i].as_str());
            proof {
                assert(cs.take(i + 1).drop_last() =~= cs.take(i as int));
                assert(cs.take(i + 1).last() == cs[i as int]);
                assert(cs[i as int] == choices@[i as int]@);
                assert(cs[best as int] == choices@[best as int]@);
            }
            if c >= best_count {
                best = i;
                best_count = c;
            }
            i = i + 1;
        }
        proof {
            assert(cs.take(choices@.len() as int) =~= cs);
        }
        Ok(choices[best].clone())
    }

    /// Appends `n` copies of a placement.
    fn push_copies(placements: &mut Vec<IngredientPlacement>, item: &String, row: u8, column: u8, n: u32)
        ensures
            final(placements)@.map_values(|p: IngredientPlacement| p@)
                == old(placements)@.map_values(|p: IngredientPlacement| p@) + copies(item@, row, column, n as int),
    {
        let ghost base = placements@.map_values(|p: IngredientPlacement| p@);
        let mut k: u32 = 0;
        while k < n
            invariant
                k <= n,
                placements@.map_values(|p: IngredientPlacement| p@) == base + copies(item@, row, column, k as int),
            decreases n - k,
        {
            let ghost before = placements@;
            placements.push(IngredientPlacement { item: item.clone(), row, column });
            proof {
                assert(placements@.map_values(|p: IngredientPlacement| p@)
                    =~= before.map_values(|p: IngredientPlacement| p@).push(PlacementView { item: item@, row, column }));
                assert(copies(item@, row, column, k + 1) =~= copies(item@, row, column, k as int).push(PlacementView { item: item@, row, column }));
                assert(base + copies(item@, row, column, k + 1) =~= (base + copies(item@, row, column, k as int)).push(PlacementView { item: item@, row, column }));
            }
            k = k + 1;
        }
    }

    /// Resolves the preferred recipe for `output` (normalised) into grid
    /// placements for `count` of it ([`recipe_placements`]), picking each
    /// ingredient from what `inventory` holds most of. `UnknownItem` when
    /// nothing makes it; an ingredient that cannot be picked fails it.
    pub fn resolve_grid(&self, output: &str, count: u32, inventory: &ItemCounts) -> (r: Result<ResolvedCraftPlan, Failure>)
        ensures
            ({
                let candidates = recipes_making(self.recipe_seq(), normalized(output@));
                if candidates.len() == 0 {
                    r matches Err(f) && f@ == FailureView::UnknownItem(normalized(output@))
                } else {
                    let recipe = preferred_recipe(candidates);
                    match recipe_placements(self.tag_seq(), inventory@, recipe) {
                        Err(e) => r matches Err(f) && f@ == e,
                        Ok(ps) => r matches Ok(plan) && plan.recipe_id@ == recipe.id@
                            && plan.output_item@ == recipe.output@
                            && plan.output_per_craft == recipe.output_count
                            && plan.requested_output == count
                            && plan.shaped == (recipe.layout is Shaped)
                            && plan.placements@.map_values(|p: IngredientPlacement| p@) == ps,
                    }
                }
            }),
    {
        let recipe = match self.preferred(output) {
            Ok(found) => found,
            Err(e) => {
                return Err(e);
            },
        };
        let ghost candidates = recipes_making(self.recipe_seq(), normalized(output@));
        let _all = self.recipe_list();
        proof {
            lemma_making_is_valid(self.recipe_seq(), normalized(output@));
            lemma_preferred_unique(candidates, *recipe);
        }
        let ghost tags = self.tag_seq();
        let mut placements: Vec<IngredientPlacement> = Vec::new();
        let slots = ingredients(&recipe.layout);
        let shaped = match &recipe.layout {
            RecipeLayout::Shaped { .. } => true,
            RecipeLayout::Shapeless { .. } => false,
        };
        let width: u8 = match &recipe.layout {
            RecipeLayout::Shaped { width, .. } => *width,
            RecipeLayout::Shapeless { ingredients } => {
                let mut filled: usize = 0;
                let mut i: usize = 0;
                while i < ingredients.len()
                    invariant
                        i <= ingredients@.len(),
                        filled == filled_cells(ingredients@.take(i as int)).len(),
                    decreases ingredients@.len() - i,
                {
                    proof {
                        lemma_filled_cells_step(ingredients@, i as int);
                        lemma_filled_cells_len(ingredients@.take(i as int));
                    }
                    match &ingredients[i].ingredient {
                        Ingredient::Empty => {},
                        _ => {
                            filled = filled + 1;
                        },
                    }
                    i = i + 1;
                }
                proof {
                    assert(ingredients@.take(ingredients@.len() as int) =~= ingredients@);
                }
                if filled <= 4 { 2 } else { 3 }
            },
        };
        proof {
            let k = choose|k: int| 0 <= k < self.recipe_seq().len() && self.recipe_seq()[k] == *recipe;
            assert(recipes_valid(self.recipe_seq()));
            assert(crate::crafting::recipes::recipe_error(self.recipe_seq()[k]) is None);
            if recipe.layout is Shaped {
                let w = recipe.layout->Shaped_width;
                let h = recipe.layout->Shaped_height;
                assert(w <= 3 && h <= 3 && recipe.layout->Shaped_ingredients@.len() == w * h);
                assert(w * h <= 9) by (nonlinear_arith)
                    requires
                        w <= 3,
                        h <= 3,
                ;
            }
            assert(slots@.take(0) =~= Seq::<IngredientSlot>::empty());
            assert(placements@.map_values(|p: IngredientPlacement| p@) =~= Seq::<PlacementView>::empty());
            assert(renumbered(Seq::<(int, IngredientSlot)>::empty()) =~= Seq::<(int, IngredientSlot)>::empty());
        }
        proof {
            assert(slots@.take(slots@.len() as int) =~= slots@);
            assert(recipe_placements(tags, inventory@, *recipe)
                == placements_for(tags, inventory@, cells_upto(slots@, slots@.len() as int, shaped), width));
        }
        let mut i: usize = 0;
        let mut filled: usize = 0;
        while i < slots.len()
            invariant
                candidates == recipes_making(self.recipe_seq(), normalized(output@)),
                candidates.len() > 0,
                preferred_recipe(candidates) == *recipe,
                recipe_placements(tags, inventory@, *recipe)
                    == placements_for(tags, inventory@, cells_upto(slots@, slots@.len() as int, shaped), width),
                i <= slots@.len(),
                tags == self.tag_seq(),
                slots@ == layout_slots(recipe.layout),
                shaped == (recipe.layout is Shaped),
                width > 0,
                shaped ==> slots@.len() <= 9,
                filled == filled_cells(slots@.take(i as int)).len(),
                placements_for(tags, inventory@, cells_upto(slots@, i as int, shaped), width)
                    == Ok::<Seq<PlacementView>, FailureView>(placements@.map_values(|p: IngredientPlacement| p@)),
            decreases slots@.len() - i,
        {
            let slot = &slots[i];
            proof {
                lemma_filled_cells_step(slots@, i as int);
                lemma_filled_cells_len(slots@.take(i as int));
                lemma_cells_upto_step(slots@, i as int, shaped);
                if !(slot.ingredient is Empty) {
                    assert(cells_upto(slots@, i + 1, shaped).drop_last() =~= cells_upto(slots@, i as int, shaped));
                }
            }
            match &slot.ingredient {
                Ingredient::Empty => {},
                _ => {
                    let index: usize = if shaped { i } else { filled };
                    let cell: u8 = #[verifier::truncate] (index as u8);
                    let row = cell / width;
                    let column = cell % width;
                    let item = match self.pick_ingredient(&slot.ingredient, inventory) {
                        Ok(found) => found,
                        Err(e) => {
                            proof {
                                lemma_failure_persists(tags, inventory@, slots@, i + 1, width, shaped, e@);
                                assert(slots@.take(slots@.len() as int) =~= slots@);
                            }
                            return Err(e);
                        },
                    };
                    Self::push_copies(&mut placements, &item, row, column, slot.count);
                    filled = filled + 1;
                },
            }
            i = i + 1;
        }
        proof {
            assert(slots@.take(slots@.len() as int) =~= slots@);
        }
        Ok(ResolvedCraftPlan {
            recipe_id: recipe.id.clone(),
            output_item: recipe.output.clone(),
            output_per_craft: recipe.output_count,
            requested_output: count,
            placements,
            shaped,
        })
    }
}

} // verus!
