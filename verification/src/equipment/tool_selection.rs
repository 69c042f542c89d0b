//! Tool classification by item id: which category a tool belongs to and
//! its material tier (1 = wood .. 7 = netherite).
use vstd::prelude::*;
use crate::text::{chars_end_with, chars_equal, chars_of, chars_start_with_at, ends_with, starts_with, strip_minecraft, strip_minecraft_prefix, minecraft_prefix};

verus! {

/// The tool kinds the equipment and combat code distinguish.
#[derive(Clone, Copy, Debug, PartialEq, Eq, Structural)]
pub enum ToolCategory {
    Sword,
    Pickaxe,
    Axe,
    Shovel,
    Hoe,
}

/// The category of the tool whose bare id (no `minecraft:` prefix) is
/// `bare`, by its suffix.
pub open spec fn category_of(bare: Seq<char>) -> Option<ToolCategory> {
    if ends_with(bare, "_sword"@) {
        Some(ToolCategory::Sword)
    } else if ends_with(bare, "_pickaxe"@) {
        Some(ToolCategory::Pickaxe)
    } else if ends_with(bare, "_axe"@) {
        Some(ToolCategory::Axe)
    } else if ends_with(bare, "_shovel"@) {
        Some(ToolCategory::Shovel)
    } else if ends_with(bare, "_hoe"@) {
        Some(ToolCategory::Hoe)
    } else {
        None
    }
}

/// The material tier of the tool whose bare id is `bare`, by its
/// material prefix; 0 for anything else.
pub open spec fn tier_of(bare: Seq<char>) -> u8 {
    if starts_with(bare, "wooden_"@) {
        1
    } else if starts_with(bare, "golden_"@) {
        2
    } else if starts_with(bare, "stone_"@) {
        3
    } else if starts_with(bare, "copper_"@) {
        4
    } else if starts_with(bare, "iron_"@) {
        5
    } else if starts_with(bare, "diamond_"@) {
        6
    } else if starts_with(bare, "netherite_"@) {
        7
    } else {
        0
    }
}

/// The category of `item_id`, namespaced or not.
pub fn category(item_id: &str) -> (c: Option<ToolCategory>)
    ensures
        c == category_of(strip_minecraft_prefix(item_id@)),
{
    let chars = chars_of(item_id);
    let bare = strip_minecraft(chars.as_slice());
    let b = bare.as_slice();
    if chars_end_with(b, chars_of("_sword").as_slice()) {
        Some(ToolCategory::Sword)
    } else if chars_end_with(b, chars_of("_pickaxe").as_slice()) {
        Some(ToolCategory::Pickaxe)
    } else if chars_end_with(b, chars_of("_axe").as_slice()) {
        Some(ToolCategory::Axe)
    } else if chars_end_with(b, chars_of("_shovel").as_slice()) {
        Some(ToolCategory::Shovel)
    } else if chars_end_with(b, chars_of("_hoe").as_slice()) {
        Some(ToolCategory::Hoe)
    } else {
        None
    }
}

/// The material tier of `item_id`, namespaced or not.
pub fn tier(item_id: &str) -> (t: u8)
    ensures
        t == tier_of(strip_minecraft_prefix(item_id@)),
        t <= 7,
{
    let chars = chars_of(item_id);
    let bare = strip_minecraft(chars.as_slice());
    let b = bare.as_slice();
    assert(b@.subrange(0, b@.len() as int) =~= b@);
    if chars_start_with_at(b, 0, chars_of("wooden_").as_slice()) {
        1
    } else if chars_start_with_at(b, 0, chars_of("golden_").as_slice()) {
        2
    } else if chars_start_with_at(b, 0, chars_of("stone_").as_slice()) {
        3
    } else if chars_start_with_at(b, 0, chars_of("copper_").as_slice()) {
        4
    } else if chars_start_with_at(b, 0, chars_of("iron_").as_slice()) {
        5
    } else if chars_start_with_at(b, 0, chars_of("diamond_").as_slice()) {
        6
    } else if chars_start_with_at(b, 0, chars_of("netherite_").as_slice()) {
        7
    } else {
        0
    }
}

/// The tool materials' name prefixes, worst first: wood, gold, stone,
/// copper, iron, diamond, netherite.
pub open spec fn tool_material_prefixes() -> Seq<Seq<char>> {
    seq!["wooden_"@, "golden_"@, "stone_"@, "copper_"@, "iron_"@, "diamond_"@, "netherite_"@]
}

/// A name that starts with `p` does not start with a `q` that begins with
/// another character.
proof fn lemma_other_initial(s: Seq<char>, p: Seq<char>, q: Seq<char>)
    requires
        starts_with(s, p),
        p.len() > 0,
        q.len() > 0,
        p[0] != q[0],
    ensures
        !starts_with(s, q),
{
    if starts_with(s, q) {
        assert(s.subrange(0, p.len() as int)[0] == s[0]);
        assert(s.subrange(0, q.len() as int)[0] == s[0]);
    }
}

/// Tool tiers follow the material order, from 1 for wood to 7 for
/// netherite (wood 1 < gold 2 < stone 3 < copper 4 < iron 5 < diamond 6 <
/// netherite 7): a tool whose bare id starts with the `i`-th material's
/// prefix has tier `i + 1`, so of two tools the one of the later material
/// always has the higher tier -- an `iron_` tool outranks a `stone_` one.
/// [`tier`] reads such an id the same with or without the `minecraft:`
/// namespace.
pub proof fn lemma_tier_follows_material(a: Seq<char>, i: int, b: Seq<char>, j: int)
    requires
        0 <= i < 7,
        0 <= j < 7,
        starts_with(a, tool_material_prefixes()[i]),
        starts_with(b, tool_material_prefixes()[j]),
    ensures
        tier_of(a) == i + 1,
        tier_of(b) == j + 1,
        i < j ==> tier_of(a) < tier_of(b),
        tier_of(strip_minecraft_prefix(a)) == i + 1,
        tier_of(strip_minecraft_prefix(minecraft_prefix() + a)) == i + 1,
{
    lemma_tier_at(a, i);
    lemma_tier_at(b, j);
    let n = minecraft_prefix() + a;
    assert(n.subrange(0, minecraft_prefix().len() as int) =~= minecraft_prefix());
    assert(n.subrange(minecraft_prefix().len() as int, n.len() as int) =~= a);
}

proof fn lemma_tier_at(a: Seq<char>, i: int)
    requires
        0 <= i < 7,
        starts_with(a, tool_material_prefixes()[i]),
    ensures
        tier_of(a) == i + 1,
        strip_minecraft_prefix(a) == a,
{
    reveal_strlit("wooden_");
    reveal_strlit("golden_");
    reveal_strlit("stone_");
    reveal_strlit("copper_");
    reveal_strlit("iron_");
    reveal_strlit("diamond_");
    reveal_strlit("netherite_");
    let ps = tool_material_prefixes();
    let p = ps[i];
    assert(p.len() > 0);
    assert forall|k: int| 0 <= k < 7 && k != i implies !starts_with(a, #[trigger] ps[k]) by {
        assert(ps[k].len() > 0);
        assert(p[0] != ps[k][0]);
        lemma_other_initial(a, p, ps[k]);
    }
    assert(ps[0] == "wooden_"@);
    assert(ps[1] == "golden_"@);
    assert(ps[2] == "stone_"@);
    assert(ps[3] == "copper_"@);
    assert(ps[4] == "iron_"@);
    assert(ps[5] == "diamond_"@);
    assert(ps[6] == "netherite_"@);
    assert(p[0] != minecraft_prefix()[0]);
    lemma_other_initial(a, p, minecraft_prefix());
}

/// The tool kinds' id suffixes, in [`ToolCategory`] order.
pub open spec fn tool_suffixes() -> Seq<Seq<char>> {
    seq!["_sword"@, "_pickaxe"@, "_axe"@, "_shovel"@, "_hoe"@]
}

/// The category each of [`tool_suffixes`] names.
pub open spec fn suffix_category(k: int) -> ToolCategory {
    if k == 0 {
        ToolCategory::Sword
    } else if k == 1 {
        ToolCategory::Pickaxe
    } else if k == 2 {
        ToolCategory::Axe
    } else if k == 3 {
        ToolCategory::Shovel
    } else {
        ToolCategory::Hoe
    }
}

/// A text whose character facing `suffix[j]` differs does not end with
/// `suffix`.
proof fn lemma_not_ending_with(s: Seq<char>, suffix: Seq<char>, j: int)
    requires
        0 <= j < suffix.len(),
        suffix.len() <= s.len() ==> s[s.len() - suffix.len() + j] != suffix[j],
    ensures
        !ends_with(s, suffix),
{
    if ends_with(s, suffix) {
        assert(s.subrange(s.len() - suffix.len(), s.len() as int)[j] == s[s.len() - suffix.len() + j]);
    }
}

/// A tool's category is named by its id's suffix: `_sword`, `_pickaxe`,
/// `_axe`, `_shovel` or `_hoe` -- a pickaxe is never taken for an axe.
pub proof fn lemma_category_by_suffix(bare: Seq<char>, k: int)
    requires
        0 <= k < 5,
        ends_with(bare, tool_suffixes()[k]),
    ensures
        category_of(bare) == Some(suffix_category(k)),
{
    reveal_strlit("_sword");
    reveal_strlit("_pickaxe");
    reveal_strlit("_axe");
    reveal_strlit("_shovel");
    reveal_strlit("_hoe");
    let sufs = tool_suffixes();
    assert(sufs[0] == "_sword"@ && sufs[1] == "_pickaxe"@ && sufs[2] == "_axe"@ && sufs[3] == "_shovel"@ && sufs[4] == "_hoe"@);
    let suf = sufs[k];
    let n = bare.len() as int;
    let l = suf.len() as int;
    assert(bare.subrange(n - l, n)[l - 1] == bare[n - 1]);
    assert(bare.subrange(n - l, n)[l - 3] == bare[n - 3]);
    assert(bare.subrange(n - l, n)[l - 4] == bare[n - 4]);
    if k != 0 {
        lemma_not_ending_with(bare, "_sword"@, 5);
    }
    if k == 2 {
        lemma_not_ending_with(bare, "_pickaxe"@, 4);
    }
    if k == 3 {
        lemma_not_ending_with(bare, "_pickaxe"@, 7);
        lemma_not_ending_with(bare, "_axe"@, 3);
    }
    if k == 4 {
        lemma_not_ending_with(bare, "_pickaxe"@, 5);
        lemma_not_ending_with(bare, "_axe"@, 1);
        lemma_not_ending_with(bare, "_shovel"@, 6);
    }
}

} // verus!
