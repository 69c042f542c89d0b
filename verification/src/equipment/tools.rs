//! Sword/pickaxe/axe/shovel ranking for the automatic hotbar equipment.
//! Mirrors the armor ranking: by material tier alone (`Rarity`), or by the
//! durability-penalised score on the same 1.0-10.0 scale (`Score`, kept in
//! tenths).
use vstd::prelude::*;
use crate::config::ToolRankingMode;
use crate::equipment::model::EquipmentItem;
use crate::equipment::scoring::{penalize_for_durability, penalized_tenths};
use crate::equipment::tool_selection::{category, category_of, tier, tier_of, ToolCategory};
use crate::text::strip_minecraft_prefix;

verus! {

/// One inventory candidate for a tool category, with its material tier.
#[derive(Clone, Copy, Debug)]
pub struct Candidate<'a> {
    pub item: &'a EquipmentItem,
    pub tier: u8,
}

/// A tier's ceiling score, in tenths.
pub open spec fn tier_base_tenths(tier: u8) -> u32 {
    if tier == 1 {
        10
    } else if tier == 2 {
        20
    } else if tier == 3 {
        30
    } else if tier == 4 {
        40
    } else if tier == 5 {
        60
    } else if tier == 6 {
        85
    } else if tier == 7 {
        100
    } else {
        10
    }
}

fn base_score(tier: u8) -> (s: u32)
    ensures
        s == tier_base_tenths(tier),
{
    match tier {
        1 => 10,
        2 => 20,
        3 => 30,
        4 => 40,
        5 => 60,
        6 => 85,
        7 => 100,
        _ => 10,
    }
}

/// The tier of the tool `item_id`.
pub open spec fn item_tier(item_id: Seq<char>) -> u8 {
    tier_of(strip_minecraft_prefix(item_id))
}

/// `Score` mode's rating for one tool, in tenths.
pub open spec fn tool_score(item: EquipmentItem) -> int {
    penalized_tenths(tier_base_tenths(item_tier(item.item_id@)) as int, item.current_durability as int, item.max_durability as int)
}

/// `Score` mode's rating for one tool, in tenths (10..=100).
pub fn rank_score(item: &EquipmentItem) -> (s: u32)
    ensures
        s == tool_score(*item),
        10 <= s <= 100,
{
    penalize_for_durability(base_score(tier(item.item_id.as_str())), item.current_durability, item.max_durability)
}

/// What `best_candidate` ranks a tool by in `mode`.
pub open spec fn tool_key(mode: ToolRankingMode, item: EquipmentItem) -> int {
    match mode {
        ToolRankingMode::Rarity => item_tier(item.item_id@) as int,
        ToolRankingMode::Score => tool_score(item),
    }
}

/// Whether inventory entry `i` is a tool of category `wanted`.
pub open spec fn is_of(inventory: Seq<EquipmentItem>, i: int, wanted: ToolCategory) -> bool {
    category_of(strip_minecraft_prefix(inventory[i].item_id@)) == Some(wanted)
}

/// Whether entry `i` is the best tool of `wanted`: nothing ranks higher,
/// and nothing later ranks as high (ties go to the later entry).
pub open spec fn is_best_tool(mode: ToolRankingMode, wanted: ToolCategory, inventory: Seq<EquipmentItem>, i: int) -> bool {
    &&& 0 <= i < inventory.len()
    &&& is_of(inventory, i, wanted)
    &&& forall|j: int| 0 <= j < inventory.len() && is_of(inventory, j, wanted) ==> tool_key(mode, inventory[j]) <= tool_key(mode, inventory[i])
    &&& forall|j: int| i < j < inventory.len() && is_of(inventory, j, wanted) ==> tool_key(mode, inventory[j]) < tool_key(mode, inventory[i])
}

fn key_of(mode: ToolRankingMode, item: &EquipmentItem) -> (k: u32)
    ensures
        k == tool_key(mode, *item),
{
    match mode {
        ToolRankingMode::Rarity => tier(item.item_id.as_str()) as u32,
        ToolRankingMode::Score => rank_score(item),
    }
}

/// The best-ranked tool of category `wanted` in `inventory`, per `mode`;
/// ties go to the later entry. `None` when there is none.
pub fn best_candidate<'a>(mode: ToolRankingMode, wanted: ToolCategory, inventory: &'a [EquipmentItem]) -> (best: Option<Candidate<'a>>)
    ensures
        best is None <==> (forall|j: int| 0 <= j < inventory@.len() ==> !is_of(inventory@, j, wanted)),
        best is Some ==> exists|i: int| is_best_tool(mode, wanted, inventory@, i) && *best->0.item == inventory@[i]
            && best->0.tier == item_tier(inventory@[i].item_id@),
{
    let mut best: Option<Candidate<'a>> = None;
    let mut best_key: u32 = 0;
    let ghost mut best_index: int = -1;
    let mut i: usize = 0;
    while i < inventory.len()
        invariant
            i <= inventory.len(),
            best is None <==> (forall|j: int| 0 <= j < i ==> !is_of(inventory@, j, wanted)),
            best is Some ==> {
                &&& 0 <= best_index < i
                &&& is_of(inventory@, best_index, wanted)
                &&& *best->0.item == inventory@[best_index]
                &&& best->0.tier == item_tier(inventory@[best_index].item_id@)
                &&& best_key == tool_key(mode, inventory@[best_index])
                &&& forall|j: int| 0 <= j < i && is_of(inventory@, j, wanted) ==> tool_key(mode, inventory@[j]) <= best_key
                &&& forall|j: int| best_index < j < i && is_of(inventory@, j, wanted) ==> tool_key(mode, inventory@[j]) < best_key
            },
        decreases inventory.len() - i,
    {
        let item = &inventory[i];
        if category(item.item_id.as_str()) == Some(wanted) {
            let key = key_of(mode, item);
            let better = match &best {
                None => true,
                Some(_) => key >= best_key,
            };
            if better {
                best = Some(Candidate { item, tier: tier(item.item_id.as_str()) });
                best_key = key;
                proof {
                    best_index = i as int;
                    assert(inventory@[best_index] == *item);
                    assert(is_of(inventory@, best_index, wanted));
                }
            }
        }
        proof {
            if best is None {
                assert forall|j: int| 0 <= j < i + 1 implies !is_of(inventory@, j, wanted) by {
                    if j == i {
                        assert(inventory@[j] == *item);
                    }
                }
            } else {
                assert(is_of(inventory@, best_index, wanted));
                assert(!(forall|j: int| 0 <= j < i + 1 ==> !is_of(inventory@, j, wanted)));
            }
        }
        i = i + 1;
    }
    proof {
        if best is Some {
            assert(is_best_tool(mode, wanted, inventory@, best_index));
        }
    }
    best
}

/// Whether a candidate (of the given tier and item) should replace what
/// is held: `Rarity` needs a strictly higher tier, `Score` at least a
/// 0.2-point improvement. Nothing held counts as tier 0, score 0.
pub open spec fn tool_replaces(mode: ToolRankingMode, held: Option<EquipmentItem>, candidate_item: EquipmentItem, candidate_tier: u8) -> bool {
    match mode {
        ToolRankingMode::Rarity => candidate_tier > match held {
            None => 0,
            Some(h) => item_tier(h.item_id@),
        },
        ToolRankingMode::Score => tool_score(candidate_item) >= match held {
            None => 0,
            Some(h) => tool_score(h),
        } + 2,
    }
}

/// Whether `candidate` should replace whatever is held in its slot.
pub fn should_replace(mode: ToolRankingMode, held: Option<&EquipmentItem>, candidate: Candidate) -> (r: bool)
    ensures
        r == tool_replaces(mode, match held {
            Some(h) => Some(*h),
            None => None,
        }, *candidate.item, candidate.tier),
{
    match mode {
        ToolRankingMode::Rarity => {
            let held_tier: u8 = match held {
                None => 0,
                Some(item) => tier(item.item_id.as_str()),
            };
            candidate.tier > held_tier
        },
        ToolRankingMode::Score => {
            let held_score: u32 = match held {
                None => 0,
                Some(item) => rank_score(item),
            };
            rank_score(candidate.item) >= held_score + 2
        },
    }
}

/// Tool scores follow the material tier: at full durability (or of
/// unknown durability) a wood tool scores 1.0, gold 2.0, stone 3.0, copper
/// 4.0, iron 6.0, diamond 8.5 and netherite 10.0 (in tenths), so of two
/// such tools the one of the higher tier always scores more.
pub proof fn lemma_tool_scores_follow_tier(a: EquipmentItem, b: EquipmentItem)
    requires
        a.current_durability == a.max_durability,
        b.current_durability == b.max_durability,
        1 <= item_tier(a.item_id@) <= 7,
        1 <= item_tier(b.item_id@) <= 7,
    ensures
        item_tier(a.item_id@) < item_tier(b.item_id@) ==> tool_score(a) < tool_score(b),
        item_tier(a.item_id@) == 1 ==> tool_score(a) == 10,
        item_tier(a.item_id@) == 2 ==> tool_score(a) == 20,
        item_tier(a.item_id@) == 3 ==> tool_score(a) == 30,
        item_tier(a.item_id@) == 4 ==> tool_score(a) == 40,
        item_tier(a.item_id@) == 5 ==> tool_score(a) == 60,
        item_tier(a.item_id@) == 6 ==> tool_score(a) == 85,
        item_tier(a.item_id@) == 7 ==> tool_score(a) == 100,
{
    crate::equipment::scoring::lemma_full_durability_keeps_base(
        tier_base_tenths(item_tier(a.item_id@)) as int, a.max_durability as int);
    crate::equipment::scoring::lemma_full_durability_keeps_base(
        tier_base_tenths(item_tier(b.item_id@)) as int, b.max_durability as int);
}

/// The swap rules for a hotbar tool: an empty slot is always filled by a
/// known tool; a tool is never swapped for one just like it; `Score`
/// swaps exactly when the candidate beats what is held by at least 0.2
/// points (2 tenths), so a candidate that replaces one tool also replaces
/// any tool scoring no more; `Rarity` swaps exactly for a strictly higher
/// tier, whatever the durabilities.
pub proof fn lemma_tool_swap_rules(mode: ToolRankingMode, held: EquipmentItem, other: EquipmentItem, candidate: EquipmentItem)
    ensures
        item_tier(candidate.item_id@) >= 1 ==> tool_replaces(mode, None, candidate, item_tier(candidate.item_id@)),
        !tool_replaces(mode, Some(candidate), candidate, item_tier(candidate.item_id@)),
        tool_replaces(ToolRankingMode::Score, Some(held), candidate, item_tier(candidate.item_id@))
            == (tool_score(candidate) - tool_score(held) >= 2),
        tool_replaces(ToolRankingMode::Score, Some(held), candidate, item_tier(candidate.item_id@))
            && tool_score(other) <= tool_score(held)
            ==> tool_replaces(ToolRankingMode::Score, Some(other), candidate, item_tier(candidate.item_id@)),
        tool_replaces(ToolRankingMode::Rarity, Some(held), candidate, item_tier(candidate.item_id@))
            == (item_tier(candidate.item_id@) > item_tier(held.item_id@)),
{
    crate::equipment::scoring::lemma_penalized_bounds(tier_base_tenths(item_tier(candidate.item_id@)) as int,
        candidate.current_durability as int, candidate.max_durability as int);
}

} // verus!
