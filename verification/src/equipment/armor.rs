//! Armor classification and ranking.
use vstd::prelude::*;
use crate::config::ArmorMode;
use crate::equipment::model::EquipmentItem;
use crate::equipment::scoring::{penalize_for_durability, penalized_tenths};
use crate::text::{after_last_colon, chars_after_last_colon, chars_end_with, chars_equal, chars_of, copy_range, ends_with};

verus! {

/// The four armor slots.
#[derive(Clone, Copy, Debug, PartialEq, Eq, Structural)]
pub enum ArmorSlot {
    Head,
    Chest,
    Legs,
    Feet,
}

impl ArmorSlot {
    /// The protocol slot of this piece in the player's inventory menu
    /// (5..=8, head to feet).
    pub fn protocol_slot(self) -> (slot: usize)
        ensures
            slot == 5 + armor_index(self),
    {
        match self {
            ArmorSlot::Head => 5,
            ArmorSlot::Chest => 6,
            ArmorSlot::Legs => 7,
            ArmorSlot::Feet => 8,
        }
    }

    /// Index into `EquipmentSnapshot::armor_worn`.
    pub fn index(self) -> (i: usize)
        ensures
            i == armor_index(self),
    {
        match self {
            ArmorSlot::Head => 0,
            ArmorSlot::Chest => 1,
            ArmorSlot::Legs => 2,
            ArmorSlot::Feet => 3,
        }
    }
}

/// Head, chest, legs, feet: 0..=3.
pub open spec fn armor_index(slot: ArmorSlot) -> int {
    match slot {
        ArmorSlot::Head => 0,
        ArmorSlot::Chest => 1,
        ArmorSlot::Legs => 2,
        ArmorSlot::Feet => 3,
    }
}

/// Armor materials, worst to best -- also the `Rarity` ranking.
#[derive(Clone, Copy, Debug, PartialEq, Eq, PartialOrd, Ord, Structural)]
pub enum ArmorMaterial {
    Leather,
    Gold,
    Copper,
    Chainmail,
    Iron,
    Diamond,
    Netherite,
}

/// The material's position in the ranking, worst first.
pub open spec fn material_rank(m: ArmorMaterial) -> int {
    match m {
        ArmorMaterial::Leather => 0,
        ArmorMaterial::Gold => 1,
        ArmorMaterial::Copper => 2,
        ArmorMaterial::Chainmail => 3,
        ArmorMaterial::Iron => 4,
        ArmorMaterial::Diamond => 5,
        ArmorMaterial::Netherite => 6,
    }
}

/// The material's ceiling score, in tenths (1.0 .. 10.0).
pub open spec fn material_base_tenths(m: ArmorMaterial) -> u32 {
    match m {
        ArmorMaterial::Leather => 10,
        ArmorMaterial::Gold => 20,
        ArmorMaterial::Copper => 25,
        ArmorMaterial::Chainmail => 30,
        ArmorMaterial::Iron => 50,
        ArmorMaterial::Diamond => 80,
        ArmorMaterial::Netherite => 100,
    }
}

impl ArmorMaterial {
    /// The material's ceiling score, in tenths.
    pub fn base_score(self) -> (s: u32)
        ensures
            s == material_base_tenths(self),
    {
        match self {
            ArmorMaterial::Leather => 10,
            ArmorMaterial::Gold => 20,
            ArmorMaterial::Copper => 25,
            ArmorMaterial::Chainmail => 30,
            ArmorMaterial::Iron => 50,
            ArmorMaterial::Diamond => 80,
            ArmorMaterial::Netherite => 100,
        }
    }

    /// The material's position in the ranking, worst first.
    pub fn rank(self) -> (r: u8)
        ensures
            r == material_rank(self),
    {
        match self {
            ArmorMaterial::Leather => 0,
            ArmorMaterial::Gold => 1,
            ArmorMaterial::Copper => 2,
            ArmorMaterial::Chainmail => 3,
            ArmorMaterial::Iron => 4,
            ArmorMaterial::Diamond => 5,
            ArmorMaterial::Netherite => 6,
        }
    }
}

/// The material a bare material name denotes.
pub open spec fn material_named(name: Seq<char>) -> Option<ArmorMaterial> {
    if name == "leather"@ {
        Some(ArmorMaterial::Leather)
    } else if name == "golden"@ {
        Some(ArmorMaterial::Gold)
    } else if name == "copper"@ {
        Some(ArmorMaterial::Copper)
    } else if name == "chainmail"@ {
        Some(ArmorMaterial::Chainmail)
    } else if name == "iron"@ {
        Some(ArmorMaterial::Iron)
    } else if name == "diamond"@ {
        Some(ArmorMaterial::Diamond)
    } else if name == "netherite"@ {
        Some(ArmorMaterial::Netherite)
    } else {
        None
    }
}

/// `s` without its last `n` characters.
pub open spec fn without_suffix(s: Seq<char>, n: nat) -> Seq<char> {
    s.subrange(0, s.len() - n)
}

/// The slot and material of the armor piece with bare id `bare`.
pub open spec fn classify_bare(bare: Seq<char>) -> Option<(ArmorSlot, ArmorMaterial)> {
    let slot_and_material: Option<(ArmorSlot, Seq<char>)> = if ends_with(bare, "_helmet"@) {
        Some((ArmorSlot::Head, without_suffix(bare, "_helmet"@.len())))
    } else if ends_with(bare, "_chestplate"@) {
        Some((ArmorSlot::Chest, without_suffix(bare, "_chestplate"@.len())))
    } else if ends_with(bare, "_leggings"@) {
        Some((ArmorSlot::Legs, without_suffix(bare, "_leggings"@.len())))
    } else if ends_with(bare, "_boots"@) {
        Some((ArmorSlot::Feet, without_suffix(bare, "_boots"@.len())))
    } else {
        None
    };
    match slot_and_material {
        None => None,
        Some((slot, name)) => match material_named(name) {
            None => None,
            Some(material) => Some((slot, material)),
        },
    }
}

/// The slot and material of the armor piece `item_id` (namespaced or
/// not): everything after the last `:` is the bare id.
pub open spec fn classify_id(item_id: Seq<char>) -> Option<(ArmorSlot, ArmorMaterial)> {
    classify_bare(after_last_colon(item_id))
}

fn material_from(name: &[char]) -> (m: Option<ArmorMaterial>)
    ensures
        m == material_named(name@),
{
    if chars_equal(name, chars_of("leather").as_slice()) {
        Some(ArmorMaterial::Leather)
    } else if chars_equal(name, chars_of("golden").as_slice()) {
        Some(ArmorMaterial::Gold)
    } else if chars_equal(name, chars_of("copper").as_slice()) {
        Some(ArmorMaterial::Copper)
    } else if chars_equal(name, chars_of("chainmail").as_slice()) {
        Some(ArmorMaterial::Chainmail)
    } else if chars_equal(name, chars_of("iron").as_slice()) {
        Some(ArmorMaterial::Iron)
    } else if chars_equal(name, chars_of("diamond").as_slice()) {
        Some(ArmorMaterial::Diamond)
    } else if chars_equal(name, chars_of("netherite").as_slice()) {
        Some(ArmorMaterial::Netherite)
    } else {
        None
    }
}

/// Classifies an armor item id into the slot it occupies and its
/// material; `None` for anything that is not one of the seven vanilla
/// armor materials' helmet, chestplate, leggings or boots.
pub fn classify(item_id: &str) -> (c: Option<(ArmorSlot, ArmorMaterial)>)
    ensures
        c == classify_id(item_id@),
{
    let chars = chars_of(item_id);
    let bare_vec = chars_after_last_colon(chars.as_slice());
    let bare = bare_vec.as_slice();
    let helmet = chars_of("_helmet");
    let chestplate = chars_of("_chestplate");
    let leggings = chars_of("_leggings");
    let boots = chars_of("_boots");
    let (slot, cut) = if chars_end_with(bare, helmet.as_slice()) {
        (ArmorSlot::Head, helmet.len())
    } else if chars_end_with(bare, chestplate.as_slice()) {
        (ArmorSlot::Chest, chestplate.len())
    } else if chars_end_with(bare, leggings.as_slice()) {
        (ArmorSlot::Legs, leggings.len())
    } else if chars_end_with(bare, boots.as_slice()) {
        (ArmorSlot::Feet, boots.len())
    } else {
        return None;
    };
    let name = copy_range(bare, 0, bare.len() - cut);
    match material_from(name.as_slice()) {
        None => None,
        Some(material) => Some((slot, material)),
    }
}

/// The score, in tenths, of a piece of `material` with the given
/// durability.
pub open spec fn armor_score(material: ArmorMaterial, current: u32, max: u32) -> int {
    penalized_tenths(material_base_tenths(material) as int, current as int, max as int)
}

/// `Score` mode's rating for one armor piece, in tenths (10..=100):
/// material sets the ceiling, wear pulls it down.
pub fn score(material: ArmorMaterial, current_durability: u32, max_durability: u32) -> (s: u32)
    ensures
        s == armor_score(material, current_durability, max_durability),
        10 <= s <= 100,
{
    penalize_for_durability(material.base_score(), current_durability, max_durability)
}

/// One inventory candidate for an armor slot, with its parsed material.
#[derive(Clone, Copy, Debug)]
pub struct Candidate<'a> {
    pub item: &'a EquipmentItem,
    pub material: ArmorMaterial,
}

/// What `best_candidate` ranks a candidate by in `mode`.
pub open spec fn armor_key(mode: ArmorMode, item: EquipmentItem, material: ArmorMaterial) -> int {
    match mode {
        ArmorMode::Score => armor_score(material, item.current_durability, item.max_durability),
        ArmorMode::Rarity => material_rank(material),
    }
}

/// Whether inventory entry `i` is a piece for `slot`.
pub open spec fn fits_slot(inventory: Seq<EquipmentItem>, i: int, slot: ArmorSlot) -> bool {
    classify_id(inventory[i].item_id@) is Some && (classify_id(inventory[i].item_id@)->0).0 == slot
}

/// The key of inventory entry `i`, which must fit a slot.
pub open spec fn entry_key(mode: ArmorMode, inventory: Seq<EquipmentItem>, i: int) -> int {
    armor_key(mode, inventory[i], (classify_id(inventory[i].item_id@)->0).1)
}

/// Whether entry `i` is the best piece for `slot`: it fits, nothing ranks
/// higher, and nothing later ranks as high (ties go to the later entry).
pub open spec fn is_best_entry(mode: ArmorMode, slot: ArmorSlot, inventory: Seq<EquipmentItem>, i: int) -> bool {
    &&& 0 <= i < inventory.len()
    &&& fits_slot(inventory, i, slot)
    &&& forall|j: int| 0 <= j < inventory.len() && fits_slot(inventory, j, slot) ==> entry_key(mode, inventory, j) <= entry_key(mode, inventory, i)
    &&& forall|j: int| i < j < inventory.len() && fits_slot(inventory, j, slot) ==> entry_key(mode, inventory, j) < entry_key(mode, inventory, i)
}

fn key_of(mode: ArmorMode, item: &EquipmentItem, material: ArmorMaterial) -> (k: u32)
    ensures
        k == armor_key(mode, *item, material),
{
    match mode {
        ArmorMode::Score => score(material, item.current_durability, item.max_durability),
        ArmorMode::Rarity => material.rank() as u32,
    }
}

/// The best-ranked piece for `slot` in `inventory`, per `mode`; ties go to
/// the later entry. `None` when nothing fits the slot.
pub fn best_candidate<'a>(mode: ArmorMode, slot: ArmorSlot, inventory: &'a [EquipmentItem]) -> (best: Option<Candidate<'a>>)
    ensures
        best is None <==> (forall|j: int| 0 <= j < inventory@.len() ==> !fits_slot(inventory@, j, slot)),
        best is Some ==> exists|i: int| is_best_entry(mode, slot, inventory@, i) && *best->0.item == inventory@[i]
            && best->0.material == (classify_id(inventory@[i].item_id@)->0).1,
{
    let mut best: Option<Candidate<'a>> = None;
    let mut best_key: u32 = 0;
    let ghost mut best_index: int = -1;
    let mut i: usize = 0;
    while i < inventory.len()
        invariant
            i <= inventory.len(),
            best is None <==> (forall|j: int| 0 <= j < i ==> !fits_slot(inventory@, j, slot)),
            best is Some ==> {
                &&& 0 <= best_index < i
                &&& fits_slot(inventory@, best_index, slot)
                &&& *best->0.item == inventory@[best_index]
                &&& best->0.material == (classify_id(inventory@[best_index].item_id@)->0).1
                &&& best_key == entry_key(mode, inventory@, best_index)
                &&& forall|j: int| 0 <= j < i && fits_slot(inventory@, j, slot) ==> entry_key(mode, inventory@, j) <= best_key
                &&& forall|j: int| best_index < j < i && fits_slot(inventory@, j, slot) ==> entry_key(mode, inventory@, j) < best_key
            },
        decreases inventory.len() - i,
    {
        let item = &inventory[i];
        match classify(item.item_id.as_str()) {
            Some((item_slot, material)) => {
                if item_slot == slot {
                    let key = key_of(mode, item, material);
                    let better = match &best {
                        None => true,
                        Some(_) => key >= best_key,
                    };
                    if better {
                        best = Some(Candidate { item, material });
                        best_key = key;
                        proof {
                            best_index = i as int;
                            assert(inventory@[best_index] == *item);
                            assert(fits_slot(inventory@, best_index, slot));
                        }
                    }
                }
            },
            None => {},
        }
        proof {
            if best is None {
                assert forall|j: int| 0 <= j < i + 1 implies !fits_slot(inventory@, j, slot) by {
                    if j == i {
                        assert(inventory@[j] == *item);
                    }
                }
            } else {
                assert(fits_slot(inventory@, best_index, slot));
                assert(!(forall|j: int| 0 <= j < i + 1 ==> !fits_slot(inventory@, j, slot)));
            }
        }
        i = i + 1;
    }
    proof {
        if best is Some {
            assert(is_best_entry(mode, slot, inventory@, best_index));
        }
    }
    best
}

/// The score of what is worn, for replacement: 0 for nothing or an
/// unclassifiable item.
pub open spec fn worn_score(worn: Option<EquipmentItem>) -> int {
    match worn {
        None => 0,
        Some(item) => match classify_id(item.item_id@) {
            None => 0,
            Some((_, material)) => armor_score(material, item.current_durability, item.max_durability),
        },
    }
}

/// Whether `candidate` should replace what is worn. `Score` needs at
/// least a 0.2-point improvement; `Rarity` needs a strictly higher tier and
/// ignores durability. An unclassifiable worn item counts as empty.
pub open spec fn replaces(mode: ArmorMode, worn: Option<EquipmentItem>, candidate_item: EquipmentItem, candidate_material: ArmorMaterial) -> bool {
    match mode {
        ArmorMode::Score => armor_score(candidate_material, candidate_item.current_durability, candidate_item.max_durability)
            >= worn_score(worn) + 2,
        ArmorMode::Rarity => match worn {
            None => true,
            Some(item) => match classify_id(item.item_id@) {
                None => true,
                Some((_, material)) => material_rank(candidate_material) > material_rank(material),
            },
        },
    }
}

/// Whether `candidate` should replace whatever is worn.
pub fn should_replace(mode: ArmorMode, worn: Option<&EquipmentItem>, candidate: Candidate) -> (r: bool)
    ensures
        r == replaces(mode, match worn {
            Some(w) => Some(*w),
            None => None,
        }, *candidate.item, candidate.material),
{
    let worn_material = match worn {
        None => None,
        Some(item) => match classify(item.item_id.as_str()) {
            None => None,
            Some((_, material)) => Some(material),
        },
    };
    match mode {
        ArmorMode::Score => {
            let worn_value: u32 = match (worn, worn_material) {
                (Some(item), Some(material)) => score(material, item.current_durability, item.max_durability),
                _ => 0,
            };
            let candidate_value = score(candidate.material, candidate.item.current_durability, candidate.item.max_durability);
            candidate_value >= worn_value + 2
        },
        ArmorMode::Rarity => match worn_material {
            None => true,
            Some(material) => candidate.material.rank() > material.rank(),
        },
    }
}

/// A piece at full durability (or of unknown durability) scores its
/// material's ceiling.
proof fn lemma_full_piece_scores_its_base(m: ArmorMaterial, d: u32)
    ensures
        armor_score(m, d, d) == material_base_tenths(m),
{
    crate::equipment::scoring::lemma_full_durability_keeps_base(material_base_tenths(m) as int, d as int);
}

/// Armor scores follow the material order, worst first: Leather 1.0,
/// Gold 2.0, Copper 2.5, Chainmail 3.0, Iron 5.0, Diamond 8.0, Netherite
/// 10.0 (in tenths). So of two pieces at full durability, one of a higher
/// material always scores more than one of a lower material, whatever
/// their durabilities.
pub proof fn lemma_material_order_scores(a: ArmorMaterial, b: ArmorMaterial, da: u32, db: u32)
    ensures
        material_rank(a) < material_rank(b) ==> armor_score(a, da, da) < armor_score(b, db, db),
        material_rank(a) == material_rank(b) ==> armor_score(a, da, da) == armor_score(b, db, db),
        armor_score(ArmorMaterial::Leather, da, da) == 10,
        armor_score(ArmorMaterial::Gold, da, da) == 20,
        armor_score(ArmorMaterial::Copper, da, da) == 25,
        armor_score(ArmorMaterial::Chainmail, da, da) == 30,
        armor_score(ArmorMaterial::Iron, da, da) == 50,
        armor_score(ArmorMaterial::Diamond, da, da) == 80,
        armor_score(ArmorMaterial::Netherite, da, da) == 100,
{
    lemma_full_piece_scores_its_base(a, da);
    lemma_full_piece_scores_its_base(b, db);
    lemma_full_piece_scores_its_base(ArmorMaterial::Leather, da);
    lemma_full_piece_scores_its_base(ArmorMaterial::Gold, da);
    lemma_full_piece_scores_its_base(ArmorMaterial::Copper, da);
    lemma_full_piece_scores_its_base(ArmorMaterial::Chainmail, da);
    lemma_full_piece_scores_its_base(ArmorMaterial::Iron, da);
    lemma_full_piece_scores_its_base(ArmorMaterial::Diamond, da);
    lemma_full_piece_scores_its_base(ArmorMaterial::Netherite, da);
}

/// The armor materials' names in ids, worst first.
pub open spec fn armor_material_names() -> Seq<Seq<char>> {
    seq!["leather"@, "golden"@, "copper"@, "chainmail"@, "iron"@, "diamond"@, "netherite"@]
}

/// The armor pieces' id suffixes, head to feet.
pub open spec fn armor_piece_suffixes() -> Seq<Seq<char>> {
    seq!["_helmet"@, "_chestplate"@, "_leggings"@, "_boots"@]
}

/// The slot each of [`armor_piece_suffixes`] names.
pub open spec fn armor_piece_slot(k: int) -> ArmorSlot {
    if k == 0 {
        ArmorSlot::Head
    } else if k == 1 {
        ArmorSlot::Chest
    } else if k == 2 {
        ArmorSlot::Legs
    } else {
        ArmorSlot::Feet
    }
}

/// A text whose character facing `suffix[j]` differs does not end with
/// `suffix`.
proof fn lemma_not_ending_with(s: Seq<char>, suffix: Seq<char>, j: int)
    requires
        0 <= j < suffix.len(),
        suffix.len() <= s.len() ==> s[s.len() - suffix.len() + j] != suffix[j],
    ensures
        !ends_with(s, suffix),
{
    if ends_with(s, suffix) {
        assert(s.subrange(s.len() - suffix.len(), s.len() as int)[j] == s[s.len() - suffix.len() + j]);
    }
}

/// Vanilla armor ids classify by their two halves: the material named
/// `i`-th in [`armor_material_names`] is the one of rank `i`, and the piece
/// suffix `k`-th in [`armor_piece_suffixes`] gives the slot head, chest,
/// legs or feet -- so `chainmail_helmet` is a chainmail head piece and
/// `golden_boots` gold feet.
pub proof fn lemma_armor_ids_classify(i: int, k: int)
    requires
        0 <= i < 7,
        0 <= k < 4,
    ensures
        material_named(armor_material_names()[i]) matches Some(m) && material_rank(m) == i,
        classify_bare(armor_material_names()[i] + armor_piece_suffixes()[k]) matches Some((slot, m))
            && slot == armor_piece_slot(k) && material_rank(m) == i,
{
    reveal_strlit("leather");
    reveal_strlit("golden");
    reveal_strlit("copper");
    reveal_strlit("chainmail");
    reveal_strlit("iron");
    reveal_strlit("diamond");
    reveal_strlit("netherite");
    reveal_strlit("_helmet");
    reveal_strlit("_chestplate");
    reveal_strlit("_leggings");
    reveal_strlit("_boots");
    let names = armor_material_names();
    let sufs = armor_piece_suffixes();
    let name = names[i];
    let suf = sufs[k];
    let id = name + suf;
    let n = id.len() as int;
    assert(names[0] == "leather"@ && names[1] == "golden"@ && names[2] == "copper"@ && names[3] == "chainmail"@
        && names[4] == "iron"@ && names[5] == "diamond"@ && names[6] == "netherite"@);
    assert(sufs[0] == "_helmet"@ && sufs[1] == "_chestplate"@ && sufs[2] == "_leggings"@ && sufs[3] == "_boots"@);
    assert("diamond"@[0] != "leather"@[0]);
    assert("copper"@[0] != "golden"@[0]);
    assert("netherite"@[0] != "chainmail"@[0]);
    assert(id.subrange(n - suf.len(), n) =~= suf);
    assert(id.subrange(0, n - suf.len()) =~= name);
    assert(id[n - 1] == suf[suf.len() - 1]);
    assert(id[n - 2] == suf[suf.len() - 2]);
    if k >= 1 {
        lemma_not_ending_with(id, "_helmet"@, 6);
    }
    if k >= 2 {
        lemma_not_ending_with(id, "_chestplate"@, 10);
    }
    if k >= 3 {
        lemma_not_ending_with(id, "_leggings"@, 7);
    }
}

/// The swap rules: an empty slot (or one holding something that is not
/// armor) is always filled; a piece is never swapped for one just like
/// it; `Score` swaps exactly when the candidate beats what is worn by at
/// least 0.2 points (2 tenths), so a candidate that replaces one piece
/// also replaces any piece scoring no more; `Rarity` swaps exactly for a
/// strictly higher material, whatever the durabilities.
pub proof fn lemma_armor_swap_rules(mode: ArmorMode, worn: EquipmentItem, other: EquipmentItem,
    candidate: EquipmentItem, material: ArmorMaterial)
    ensures
        replaces(mode, None, candidate, material),
        classify_id(worn.item_id@) is None ==> replaces(mode, Some(worn), candidate, material),
        classify_id(candidate.item_id@) == Some((ArmorSlot::Head, material))
            || classify_id(candidate.item_id@) == Some((ArmorSlot::Chest, material))
            || classify_id(candidate.item_id@) == Some((ArmorSlot::Legs, material))
            || classify_id(candidate.item_id@) == Some((ArmorSlot::Feet, material))
            ==> !replaces(mode, Some(candidate), candidate, material),
        replaces(ArmorMode::Score, Some(worn), candidate, material)
            == (armor_score(material, candidate.current_durability, candidate.max_durability) - worn_score(Some(worn)) >= 2),
        replaces(ArmorMode::Score, Some(worn), candidate, material) && worn_score(Some(other)) <= worn_score(Some(worn))
            ==> replaces(ArmorMode::Score, Some(other), candidate, material),
        classify_id(worn.item_id@) matches Some((_, wm)) ==> replaces(ArmorMode::Rarity, Some(worn), candidate, material)
            == (material_rank(material) > material_rank(wm)),
{
    crate::equipment::scoring::lemma_penalized_bounds(material_base_tenths(material) as int,
        candidate.current_durability as int, candidate.max_durability as int);
}

} // verus!
