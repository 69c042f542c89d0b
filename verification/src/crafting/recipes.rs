//! Recipes, the recipe book, and the lookups the planner builds on.
use vstd::prelude::*;
use crate::text::{chars_of, string_from_chars, lower_seq, lower_chars, minecraft_prefix,
    minecraft_prefix_chars, seq_lt, str_lt, str_equal};

verus! {

/// Where a recipe can be crafted.
#[derive(Clone, Copy, Debug, PartialEq, Eq, Structural)]
pub enum Station {
    /// The player's own 2x2 grid.
    Player,
    /// A 3x3 crafting table.
    CraftingTable,
}

/// What one grid cell of a recipe asks for.
#[derive(Clone, Debug, PartialEq, Eq)]
pub enum Ingredient {
    Empty,
    Item(String),
    Alternatives(Vec<String>),
    Tag(String),
    Special(String),
}

/// One cell of a recipe and how many of its ingredient it takes.
#[derive(Clone, Debug, PartialEq, Eq)]
pub struct IngredientSlot {
    pub ingredient: Ingredient,
    pub count: u32,
}

/// A recipe's shape.
#[derive(Clone, Debug, PartialEq, Eq)]
pub enum RecipeLayout {
    /// A fixed grid, `ingredients` row-major.
    Shaped { width: u8, height: u8, ingredients: Vec<IngredientSlot> },
    /// Any arrangement of the ingredients.
    Shapeless { ingredients: Vec<IngredientSlot> },
}

/// One crafting recipe.
#[derive(Clone, Debug, PartialEq, Eq)]
pub struct Recipe {
    pub id: String,
    pub output: String,
    pub output_count: u32,
    pub station: Station,
    pub layout: RecipeLayout,
    pub known: bool,
    pub special: bool,
}

/// Where the recipe data came from.
#[derive(Clone, Debug, PartialEq, Eq)]
pub struct SourceInfo {
    pub version: String,
    pub protocol: i32,
    pub revision: String,
    /// Whether the data is the game's complete recipe set.
    pub complete: bool,
}

/// Why a lookup, availability check or plan could not go through.
#[derive(Clone, Debug, PartialEq, Eq)]
pub enum Failure {
    UnknownRecipe(String),
    UnknownItem(String),
    /// For a data source with no recipes for its protocol.
    DataUnavailable { version: String },
    UnsupportedIngredient(String),
    /// For recipe kinds other than crafting.
    UnsupportedRecipeType(String),
    StationUnavailable(Station),
    Cycle { path: Vec<String> },
    DepthLimit { item: String, limit: usize },
}

/// The characters of each string.
pub open spec fn views(v: Seq<String>) -> Seq<Seq<char>> {
    v.map_values(|s: String| s@)
}

/// A copy of a list of strings.
pub fn clone_strings(v: &Vec<String>) -> (r: Vec<String>)
    ensures
        views(r@) == views(v@),
{
    let mut r: Vec<String> = Vec::new();
    let mut i: usize = 0;
    while i < v.len()
        invariant
            i <= v@.len(),
            views(r@) == views(v@.take(i as int)),
        decreases v@.len() - i,
    {
        r.push(v[i].clone());
        proof {
            assert(views(v@.take(i + 1)) =~= views(v@.take(i as int)).push(v@[i as int]@));
            assert(views(r@) =~= views(v@.take(i as int)).push(v@[i as int]@));
        }
        i = i + 1;
    }
    proof {
        assert(v@.take(v@.len() as int) =~= v@);
    }
    r
}

/// An item or recipe id in canonical form: lower-cased, with the
/// `minecraft:` namespace added when the id names none.
pub open spec fn normalized(id: Seq<char>) -> Seq<char> {
    if id.contains(':') {
        lower_seq(id)
    } else {
        minecraft_prefix() + lower_seq(id)
    }
}

/// Executable form of [`normalized`].
pub fn normalize(id: &str) -> (r: String)
    ensures
        r@ == normalized(id@),
{
    let chars = chars_of(id);
    let mut has_colon = false;
    let mut i: usize = 0;
    while i < chars.len()
        invariant
            i <= chars@.len(),
            chars@ == id@,
            has_colon == chars@.take(i as int).contains(':'),
        decreases chars@.len() - i,
    {
        proof {
            let before = chars@.take(i as int);
            let after = chars@.take(i + 1);
            assert(after =~= before.push(chars@[i as int]));
            if before.contains(':') {
                let k = choose|k: int| 0 <= k < before.len() && before[k] == ':';
                assert(after[k] == ':');
            }
            if chars@[i as int] == ':' {
                assert(after[i as int] == ':');
            }
            if after.contains(':') {
                let k = choose|k: int| 0 <= k < after.len() && after[k] == ':';
                if k < i {
                    assert(before[k] == ':');
                }
            }
        }
        if chars[i] == ':' {
            has_colon = true;
        }
        i = i + 1;
    }
    proof {
        assert(chars@.take(chars@.len() as int) =~= chars@);
    }
    let lowered = lower_chars(chars.as_slice());
    if has_colon {
        string_from_chars(lowered.as_slice())
    } else {
        let mut all = minecraft_prefix_chars();
        let mut j: usize = 0;
        let ghost start = all@;
        while j < lowered.len()
            invariant
                j <= lowered@.len(),
                all@ == start + lowered@.take(j as int),
            decreases lowered@.len() - j,
        {
            all.push(lowered[j]);
            proof {
                assert(lowered@.take(j + 1) =~= lowered@.take(j as int).push(lowered@[j as int]));
            }
            j = j + 1;
        }
        proof {
            assert(lowered@.take(lowered@.len() as int) =~= lowered@);
        }
        string_from_chars(all.as_slice())
    }
}

/// The ingredient cells of a layout.
pub open spec fn layout_slots(layout: RecipeLayout) -> Seq<IngredientSlot> {
    match layout {
        RecipeLayout::Shaped { ingredients, .. } => ingredients@,
        RecipeLayout::Shapeless { ingredients } => ingredients@,
    }
}

/// Executable form of [`layout_slots`].
pub fn ingredients(layout: &RecipeLayout) -> (r: &Vec<IngredientSlot>)
    ensures
        r@ == layout_slots(*layout),
{
    match layout {
        RecipeLayout::Shaped { ingredients, .. } => ingredients,
        RecipeLayout::Shapeless { ingredients } => ingredients,
    }
}

/// What is wrong with a recipe, if anything: a zero output, a shaped grid
/// outside 1..=3 on either side or whose cell count does not match, or a
/// player-grid recipe larger than 2x2.
pub open spec fn recipe_error(r: Recipe) -> Option<Seq<char>> {
    if r.output_count == 0 {
        Some(r.id@ + " has zero output"@)
    } else {
        match r.layout {
            RecipeLayout::Shaped { width, height, ingredients } => {
                if width == 0 || height == 0 || width > 3 || height > 3
                    || ingredients@.len() != width * height {
                    Some(r.id@ + " has invalid shaped grid"@)
                } else if r.station == Station::Player && (width > 2 || height > 2) {
                    Some(r.id@ + " does not fit player grid"@)
                } else {
                    None
                }
            },
            RecipeLayout::Shapeless { .. } => None,
        }
    }
}

/// `prefix` followed by `text`.
fn joined(prefix: &String, text: &str) -> (s: String)
    ensures
        s@ == prefix@ + text@,
{
    let mut s = prefix.clone();
    s.append(text);
    s
}

/// Checks a recipe, returning [`recipe_error`]'s message.
pub fn validate_recipe(r: &Recipe) -> (res: Result<(), String>)
    ensures
        match recipe_error(*r) {
            None => res is Ok,
            Some(m) => res matches Err(e) && e@ == m,
        },
{
    if r.output_count == 0 {
        proof {
            reveal_strlit(" has zero output");
        }
        return Err(joined(&r.id, " has zero output"));
    }
    match &r.layout {
        RecipeLayout::Shaped { width, height, ingredients } => {
            let w = *width;
            let h = *height;
            if w == 0 || h == 0 || w > 3 || h > 3 {
                return Err(joined(&r.id, " has invalid shaped grid"));
            }
            assert((w as usize) * (h as usize) <= 9) by (nonlinear_arith)
                requires
                    w <= 3,
                    h <= 3,
            ;
            if ingredients.len() != (w as usize) * (h as usize) {
                return Err(joined(&r.id, " has invalid shaped grid"));
            }
            if r.station == Station::Player && (w > 2 || h > 2) {
                return Err(joined(&r.id, " does not fit player grid"));
            }
            Ok(())
        },
        RecipeLayout::Shapeless { .. } => Ok(()),
    }
}

/// The first error met while loading `recipes` in order: a recipe's own
/// error, or a recipe reusing an earlier recipe's id.
pub open spec fn book_error(recipes: Seq<Recipe>) -> Option<Seq<char>>
    decreases recipes.len(),
{
    if recipes.len() == 0 {
        None
    } else {
        let earlier = recipes.drop_last();
        match book_error(earlier) {
            Some(m) => Some(m),
            None => {
                let r = recipes.last();
                match recipe_error(r) {
                    Some(m) => Some(m),
                    None => if exists|i: int| 0 <= i < earlier.len() && (#[trigger] earlier[i]).id@ == r.id@ {
                        Some("duplicate recipe id"@)
                    } else {
                        None
                    },
                }
            },
        }
    }
}

/// Whether no two recipes share an id and every recipe is valid.
pub open spec fn recipes_valid(recipes: Seq<Recipe>) -> bool {
    &&& forall|i: int, j: int| 0 <= i < j < recipes.len() ==> (#[trigger] recipes[i]).id@ != (#[trigger] recipes[j]).id@
    &&& forall|i: int| 0 <= i < recipes.len() ==> recipe_error(#[trigger] recipes[i]) is None
}

/// A loaded book passes every check.
pub proof fn lemma_no_error_means_valid(recipes: Seq<Recipe>)
    requires
        book_error(recipes) is None,
    ensures
        recipes_valid(recipes),
    decreases recipes.len(),
{
    if recipes.len() > 0 {
        let earlier = recipes.drop_last();
        lemma_no_error_means_valid(earlier);
        assert forall|i: int, j: int| 0 <= i < j < recipes.len() implies (#[trigger] recipes[i]).id@ != (#[trigger] recipes[j]).id@ by {
            if j < recipes.len() - 1 {
                assert(earlier[i] == recipes[i] && earlier[j] == recipes[j]);
            } else {
                assert(earlier[i] == recipes[i]);
            }
        }
        assert forall|i: int| 0 <= i < recipes.len() implies recipe_error(#[trigger] recipes[i]) is None by {
            if i < recipes.len() - 1 {
                assert(earlier[i] == recipes[i]);
            }
        }
    }
}

/// Recipes by id, with the item tags their ingredients refer to.
#[derive(Debug)]
pub struct RecipeBook {
    source: SourceInfo,
    recipes: Vec<Recipe>,
    tags: Vec<(String, Vec<String>)>,
}

/// The members of `tag`: those of its last entry, when it has one (a later
/// entry for a name replaces an earlier one).
pub open spec fn tag_members(tags: Seq<(String, Vec<String>)>, tag: Seq<char>) -> Option<Seq<Seq<char>>>
    decreases tags.len(),
{
    if tags.len() == 0 {
        None
    } else if tags.last().0@ == tag {
        Some(views(tags.last().1@))
    } else {
        tag_members(tags.drop_last(), tag)
    }
}

/// The recipes whose output is `item`, in book order.
pub open spec fn recipes_making(recipes: Seq<Recipe>, item: Seq<char>) -> Seq<Recipe>
    decreases recipes.len(),
{
    if recipes.len() == 0 {
        Seq::empty()
    } else if recipes.last().output@ == item {
        recipes_making(recipes.drop_last(), item).push(recipes.last())
    } else {
        recipes_making(recipes.drop_last(), item)
    }
}

/// The preference order among recipes for one item: known before unknown,
/// ordinary before special, player grid before table, then by id.
pub open spec fn preferred_before(a: Recipe, b: Recipe) -> bool {
    if a.known != b.known {
        a.known
    } else if a.special != b.special {
        !a.special
    } else if (a.station == Station::CraftingTable) != (b.station == Station::CraftingTable) {
        a.station == Station::Player
    } else {
        seq_lt(a.id@, b.id@)
    }
}

/// Whether `r` is the most preferred of `candidates`.
pub open spec fn is_preferred(candidates: Seq<Recipe>, r: Recipe) -> bool {
    &&& candidates.contains(r)
    &&& forall|i: int| 0 <= i < candidates.len() && (#[trigger] candidates[i]).id@ != r.id@
        ==> preferred_before(r, candidates[i])
}

/// Executable form of [`preferred_before`].
fn prefer(a: &Recipe, b: &Recipe) -> (r: bool)
    ensures
        r == preferred_before(*a, *b),
{
    if a.known != b.known {
        a.known
    } else if a.special != b.special {
        !a.special
    } else if (a.station == Station::CraftingTable) != (b.station == Station::CraftingTable) {
        a.station == Station::Player
    } else {
        str_lt(a.id.as_str(), b.id.as_str())
    }
}

impl RecipeBook {
    #[verifier::type_invariant]
    closed spec fn valid(self) -> bool {
        recipes_valid(self.recipes@)
    }

    /// The book's recipes, in load order.
    pub closed spec fn recipe_seq(&self) -> Seq<Recipe> {
        self.recipes@
    }

    /// The book's tags, in load order.
    pub closed spec fn tag_seq(&self) -> Seq<(String, Vec<String>)> {
        self.tags@
    }

    /// The book's source description.
    pub closed spec fn source_info(&self) -> SourceInfo {
        self.source
    }

    /// A book of `recipes`, checked in order: fails with the first
    /// [`book_error`].
    pub fn new(source: SourceInfo, recipes: Vec<Recipe>, tags: Vec<(String, Vec<String>)>) -> (r: Result<Self, String>)
        ensures
            match book_error(recipes@) {
                None => r matches Ok(book) && book.recipe_seq() == recipes@ && book.tag_seq() == tags@
                    && book.source_info() == source,
                Some(m) => r matches Err(e) && e@ == m,
            },
    {
        let mut i: usize = 0;
        while i < recipes.len()
            invariant
                i <= recipes@.len(),
                book_error(recipes@.take(i as int)) is None,
            decreases recipes@.len() - i,
        {
            let ghost prefix = recipes@.take(i + 1);
            proof {
                assert(prefix.drop_last() =~= recipes@.take(i as int));
                assert(prefix.last() == recipes@[i as int]);
            }
            match validate_recipe(&recipes[i]) {
                Err(e) => {
                    proof {
                        lemma_error_persists(recipes@, i as int + 1);
                    }
                    return Err(e);
                },
                Ok(()) => {},
            }
            let mut j: usize = 0;
            while j < i
                invariant
                    j <= i < recipes@.len(),
                    prefix == recipes@.take(i + 1),
                    prefix.drop_last() == recipes@.take(i as int),
                    prefix.last() == recipes@[i as int],
                    book_error(recipes@.take(i as int)) is None,
                    recipe_error(recipes@[i as int]) is None,
                    forall|k: int| 0 <= k < j ==> (#[trigger] recipes@[k]).id@ != recipes@[i as int].id@,
                decreases i - j,
            {
                if str_equal(recipes[j].id.as_str(), recipes[i].id.as_str()) {
                    proof {
                        assert(prefix.drop_last()[j as int].id@ == prefix.last().id@);
                        lemma_error_persists(recipes@, i as int + 1);
                    }
                    let msg = String::from_str("duplicate recipe id");
                    proof {
                        reveal_strlit("duplicate recipe id");
                    }
                    return Err(msg);
                }
                j = j + 1;
            }
            proof {
                assert forall|k: int| 0 <= k < prefix.drop_last().len() implies (#[trigger] prefix.drop_last()[k]).id@ != prefix.last().id@ by {
                    assert(prefix.drop_last()[k] == recipes@[k]);
                }
            }
            i = i + 1;
        }
        proof {
            assert(recipes@.take(recipes@.len() as int) =~= recipes@);
            lemma_no_error_means_valid(recipes@);
        }
        Ok(RecipeBook { source, recipes, tags })
    }

    /// The book's recipes, in load order.
    pub fn recipe_list(&self) -> (r: &Vec<Recipe>)
        ensures
            r@ == self.recipe_seq(),
            recipes_valid(r@),
    {
        proof {
            use_type_invariant(self);
        }
        &self.recipes
    }

    /// The book's tags, in load order.
    pub fn tag_list(&self) -> (r: &Vec<(String, Vec<String>)>)
        ensures
            r@ == self.tag_seq(),
    {
        &self.tags
    }

    /// Where the recipe data came from.
    pub fn source(&self) -> (s: &SourceInfo)
        ensures
            *s == self.source_info(),
    {
        &self.source
    }

    /// The recipe with id `id` (normalised); `UnknownRecipe` with the
    /// normalised id when there is none.
    pub fn recipe(&self, id: &str) -> (r: Result<&Recipe, Failure>)
        ensures
            (exists|i: int| 0 <= i < self.recipe_seq().len() && (#[trigger] self.recipe_seq()[i]).id@ == normalized(id@))
                ==> (r matches Ok(found) && self.recipe_seq().contains(*found) && found.id@ == normalized(id@)),
            !(exists|i: int| 0 <= i < self.recipe_seq().len() && (#[trigger] self.recipe_seq()[i]).id@ == normalized(id@))
                ==> (r matches Err(Failure::UnknownRecipe(n)) && n@ == normalized(id@)),
    {
        let wanted = normalize(id);
        let mut i: usize = 0;
        while i < self.recipes.len()
            invariant
                i <= self.recipes@.len(),
                wanted@ == normalized(id@),
                forall|k: int| 0 <= k < i ==> (#[trigger] self.recipes@[k]).id@ != wanted@,
            decreases self.recipes@.len() - i,
        {
            if str_equal(self.recipes[i].id.as_str(), wanted.as_str()) {
                return Ok(&self.recipes[i]);
            }
            i = i + 1;
        }
        Err(Failure::UnknownRecipe(wanted))
    }

    /// The recipes making `output` (normalised), in book order.
    pub fn recipes_for(&self, output: &str) -> (r: Vec<&Recipe>)
        ensures
            r@.len() == recipes_making(self.recipe_seq(), normalized(output@)).len(),
            forall|i: int| 0 <= i < r@.len() ==> *r@[i] == recipes_making(self.recipe_seq(), normalized(output@))[i],
    {
        let wanted = normalize(output);
        let mut r: Vec<&Recipe> = Vec::new();
        let mut i: usize = 0;
        while i < self.recipes.len()
            invariant
                i <= self.recipes@.len(),
                wanted@ == normalized(output@),
                r@.len() == recipes_making(self.recipes@.take(i as int), wanted@).len(),
                forall|k: int| 0 <= k < r@.len() ==> *r@[k] == recipes_making(self.recipes@.take(i as int), wanted@)[k],
            decreases self.recipes@.len() - i,
        {
            proof {
                assert(self.recipes@.take(i + 1).drop_last() =~= self.recipes@.take(i as int));
            }
            if str_equal(self.recipes[i].output.as_str(), wanted.as_str()) {
                r.push(&self.recipes[i]);
            }
            i = i + 1;
        }
        proof {
            assert(self.recipes@.take(self.recipes@.len() as int) =~= self.recipes@);
        }
        r
    }

    /// The preferred recipe for `output` (see [`preferred_before`]);
    /// `UnknownItem` with the normalised id when nothing makes it.
    pub fn preferred(&self, output: &str) -> (r: Result<&Recipe, Failure>)
        ensures
            recipes_making(self.recipe_seq(), normalized(output@)).len() > 0
                ==> (r matches Ok(found) && is_preferred(recipes_making(self.recipe_seq(), normalized(output@)), *found)),
            recipes_making(self.recipe_seq(), normalized(output@)).len() == 0
                ==> (r matches Err(Failure::UnknownItem(n)) && n@ == normalized(output@)),
    {
        proof {
            use_type_invariant(self);
        }
        let candidates = self.recipes_for(output);
        let ghost cands = recipes_making(self.recipe_seq(), normalized(output@));
        proof {
            lemma_making_is_valid(self.recipes@, normalized(output@));
        }
        if candidates.len() == 0 {
            return Err(Failure::UnknownItem(normalize(output)));
        }
        let mut best: usize = 0;
        let mut i: usize = 1;
        while i < candidates.len()
            invariant
                0 < i <= candidates@.len(),
                best < i,
                candidates@.len() == cands.len(),
                forall|k: int| 0 <= k < candidates@.len() ==> *candidates@[k] == cands[k],
                recipes_valid(cands),
                forall|k: int| 0 <= k < i && k != best ==> preferred_before(cands[best as int], #[trigger] cands[k]),
            decreases candidates@.len() - i,
        {
            if prefer(candidates[i], candidates[best]) {
                proof {
                    assert forall|k: int| 0 <= k < i + 1 && k != i implies preferred_before(cands[i as int], #[trigger] cands[k]) by {
                        if k != best {
                            lemma_preferred_transitive(cands[i as int], cands[best as int], cands[k]);
                        }
                    }
                }
                best = i;
            } else {
                proof {
                    assert(cands[i as int].id@ != cands[best as int].id@);
                    lemma_preferred_total(cands[i as int], cands[best as int]);
                }
            }
            i = i + 1;
        }
        proof {
            assert(cands.contains(cands[best as int]));
            assert forall|k: int| 0 <= k < cands.len() && (#[trigger] cands[k]).id@ != cands[best as int].id@
                implies preferred_before(cands[best as int], cands[k]) by {
                if k == best {
                }
            }
        }
        Ok(candidates[best])
    }
}

/// The recipes making one item are a valid set themselves.
pub proof fn lemma_making_is_valid(recipes: Seq<Recipe>, item: Seq<char>)
    requires
        recipes_valid(recipes),
    ensures
        recipes_valid(recipes_making(recipes, item)),
        forall|i: int| 0 <= i < recipes_making(recipes, item).len()
            ==> recipes.contains(#[trigger] recipes_making(recipes, item)[i])
                && recipes_making(recipes, item)[i].output@ == item,
    decreases recipes.len(),
{
    if recipes.len() > 0 {
        let earlier = recipes.drop_last();
        assert(recipes_valid(earlier)) by {
            assert forall|i: int, j: int| 0 <= i < j < earlier.len() implies (#[trigger] earlier[i]).id@ != (#[trigger] earlier[j]).id@ by {
                assert(earlier[i] == recipes[i] && earlier[j] == recipes[j]);
            }
            assert forall|i: int| 0 <= i < earlier.len() implies recipe_error(#[trigger] earlier[i]) is None by {
                assert(earlier[i] == recipes[i]);
            }
        }
        lemma_making_is_valid(earlier, item);
        let m = recipes_making(earlier, item);
        assert forall|i: int| 0 <= i < m.len() implies recipes.contains(#[trigger] m[i]) by {
            let k = choose|k: int| 0 <= k < earlier.len() && earlier[k] == m[i];
            assert(recipes[k] == m[i]);
        }
        if recipes.last().output@ == item {
            let m2 = m.push(recipes.last());
            assert(recipes.contains(recipes.last())) by {
                assert(recipes[recipes.len() - 1] == recipes.last());
            }
            assert forall|i: int, j: int| 0 <= i < j < m2.len() implies (#[trigger] m2[i]).id@ != (#[trigger] m2[j]).id@ by {
                if j == m2.len() - 1 {
                    let k = choose|k: int| 0 <= k < earlier.len() && earlier[k] == m[i];
                    assert(recipes[k] == m2[i]);
                    assert(recipes[recipes.len() - 1] == m2[j]);
                }
            }
        }
    }
}

/// The preference order is transitive.
pub proof fn lemma_preferred_transitive(a: Recipe, b: Recipe, c: Recipe)
    requires
        preferred_before(a, b),
        preferred_before(b, c),
    ensures
        preferred_before(a, c),
{
    if a.known == b.known && b.known == c.known && a.special == b.special && b.special == c.special
        && (a.station == Station::CraftingTable) == (b.station == Station::CraftingTable)
        && (b.station == Station::CraftingTable) == (c.station == Station::CraftingTable) {
        crate::text::lemma_seq_lt_transitive(a.id@, b.id@, c.id@);
    }
}

/// Recipes with different ids are ordered one way or the other.
pub proof fn lemma_preferred_total(a: Recipe, b: Recipe)
    requires
        a.id@ != b.id@,
    ensures
        preferred_before(a, b) || preferred_before(b, a),
{
    crate::text::lemma_seq_lt_total(a.id@, b.id@);
}

/// A failure in a prefix of the recipes is the book's failure.
pub proof fn lemma_error_persists(recipes: Seq<Recipe>, n: int)
    requires
        0 <= n <= recipes.len(),
        book_error(recipes.take(n)) is Some,
    ensures
        book_error(recipes) == book_error(recipes.take(n)),
    decreases recipes.len() - n,
{
    if n < recipes.len() {
        assert(recipes.take(n + 1).drop_last() =~= recipes.take(n));
        lemma_error_persists(recipes, n + 1);
    } else {
        assert(recipes.take(n) =~= recipes);
    }
}

} // verus!
