//! The shared "material ceiling minus durability penalty" score, on a
//! 1.0-10.0 scale kept here in tenths (10..=100):
//!
//! ```text
//! durability_percent = min(current / max, 1)
//! penalty            = (1 - durability_percent) * 6
//! score              = round_to_tenth(clamp(base - penalty, 1, 10))
//! ```
//!
//! An item with no durability data (`max == 0`) scores as fully repaired.
use vstd::prelude::*;
use crate::text::str_equal;

verus! {

/// `n / d` rounded to the nearest integer, halves away from zero, for
/// non-negative `n` and positive `d`.
pub open spec fn round_div(n: int, d: int) -> int {
    (2 * n + d) / (2 * d)
}

/// `v` clamped to `lo..=hi`.
pub open spec fn clamp(v: int, lo: int, hi: int) -> int {
    if v < lo {
        lo
    } else if v > hi {
        hi
    } else {
        v
    }
}

/// The score in tenths for a base score of `base_tenths` and the given
/// durability: the exact value of the formula, clamped to 10..=100, then
/// rounded to a whole tenth.
pub open spec fn penalized_tenths(base_tenths: int, current: int, max: int) -> int {
    if max == 0 {
        clamp(base_tenths, 10, 100)
    } else {
        let kept = if current >= max { max } else { current };
        // base - 60 * (max - kept) / max, as a fraction over `max`.
        let numerator = base_tenths * max - 60 * (max - kept);
        if numerator <= 10 * max {
            10
        } else if numerator >= 100 * max {
            100
        } else {
            round_div(numerator, max)
        }
    }
}

/// An item at full durability, or of unknown durability, keeps its
/// material's whole score.
pub proof fn lemma_full_durability_keeps_base(b: int, d: int)
    requires
        10 <= b <= 100,
        d >= 0,
    ensures
        penalized_tenths(b, d, d) == b,
{
    if d > 0 {
        assert(b * d - 60 * (d - d) == b * d);
        if b == 10 {
            assert(b * d <= 10 * d);
        } else if b == 100 {
            assert(b * d >= 100 * d);
        } else {
            assert(10 * d < b * d < 100 * d) by (nonlinear_arith)
                requires
                    10 < b < 100,
                    d > 0,
            ;
            assert((2 * (b * d) + d) / (2 * d) == b) by (nonlinear_arith)
                requires
                    d > 0,
            {
                assert(2 * (b * d) + d == b * (2 * d) + d);
                vstd::arithmetic::div_mod::lemma_fundamental_div_mod_converse(2 * (b * d) + d, 2 * d, b, d);
            }
        }
    }
}

/// A durability-penalised score lies in 1.0..=10.0 (in tenths).
pub proof fn lemma_penalized_bounds(b: int, current: int, max: int)
    requires
        max >= 0,
    ensures
        10 <= penalized_tenths(b, current, max) <= 100,
{
    if max > 0 {
        let kept = if current >= max { max } else { current };
        let numerator = b * max - 60 * (max - kept);
        if 10 * max < numerator < 100 * max {
            assert(10 <= (2 * numerator + max) / (2 * max) <= 100) by (nonlinear_arith)
                requires
                    numerator > 10 * max,
                    numerator < 100 * max,
                    max > 0,
            ;
        }
    }
}

/// The durability-penalised score, in tenths, of an item whose material
/// scores `base_tenths`.
pub fn penalize_for_durability(base_tenths: u32, current_durability: u32, max_durability: u32) -> (score: u32)
    ensures
        score == penalized_tenths(base_tenths as int, current_durability as int, max_durability as int),
        10 <= score <= 100,
{
    if max_durability == 0 {
        return if base_tenths < 10 {
            10
        } else if base_tenths > 100 {
            100
        } else {
            base_tenths
        };
    }
    let max = max_durability as u64;
    let kept: u64 = if current_durability as u64 >= max { max } else { current_durability as u64 };
    assert((base_tenths as u64) * max <= 0xFFFF_FFFFu64 * 0xFFFF_FFFFu64) by (nonlinear_arith)
        requires
            base_tenths <= 0xFFFF_FFFFu64,
            max <= 0xFFFF_FFFFu64,
    ;
    let plus: u64 = (base_tenths as u64) * max;
    let minus: u64 = 60 * (max - kept);
    if plus <= minus + 10 * max {
        return 10;
    }
    let numerator: u64 = plus - minus;
    if numerator >= 100 * max {
        return 100;
    }
    let rounded = (2 * numerator + max) / (2 * max);
    assert(rounded >= 10 && rounded <= 100) by (nonlinear_arith)
        requires
            numerator > 10 * max,
            numerator < 100 * max,
            max > 0,
            rounded == (2 * numerator + max) / (2 * max),
    ;
    rounded as u32
}

/// Per-level weapon enchantment weights, in hundredths of a score point.
/// Sharpness helps in every fight; the mob-specific damage enchantments
/// count for less; the tactical ones are small tiebreaks.
pub fn weapon_enchantment_weights() -> (w: Vec<(&'static str, u32)>)
    ensures
        w@ == seq![("sharpness", 50u32), ("smite", 25u32), ("bane_of_arthropods", 25u32), ("knockback", 15u32),
            ("fire_aspect", 10u32), ("sweeping_edge", 10u32)],
{
    vec![("sharpness", 50u32), ("smite", 25u32), ("bane_of_arthropods", 25u32), ("knockback", 15u32),
        ("fire_aspect", 10u32), ("sweeping_edge", 10u32)]
}

/// Per-level armor enchantment weights, in hundredths of a score point.
/// Protection reduces every kind of damage; the rest are situational.
pub fn armor_enchantment_weights() -> (w: Vec<(&'static str, u32)>)
    ensures
        w@ == seq![("protection", 40u32), ("blast_protection", 20u32), ("fire_protection", 20u32),
            ("projectile_protection", 15u32), ("thorns", 15u32), ("feather_falling", 10u32)],
{
    vec![("protection", 40u32), ("blast_protection", 20u32), ("fire_protection", 20u32),
        ("projectile_protection", 15u32), ("thorns", 15u32), ("feather_falling", 10u32)]
}

/// The weight the table gives enchantment `name`: its first entry's, or 0
/// when the table has no opinion on it.
pub open spec fn weight_for(weights: Seq<(&str, u32)>, name: Seq<char>) -> int
    decreases weights.len(),
{
    if weights.len() == 0 {
        0
    } else if weights[0].0@ == name {
        weights[0].1 as int
    } else {
        weight_for(weights.drop_first(), name)
    }
}

/// The summed per-level bonus of `enchantments` under `weights`.
pub open spec fn bonus_total(enchantments: Seq<(String, u32)>, weights: Seq<(&str, u32)>) -> int
    decreases enchantments.len(),
{
    if enchantments.len() == 0 {
        0
    } else {
        enchantments[0].1 * weight_for(weights, enchantments[0].0@) + bonus_total(enchantments.drop_first(), weights)
    }
}

proof fn lemma_weight_for_bounded(weights: Seq<(&str, u32)>, name: Seq<char>)
    ensures
        0 <= weight_for(weights, name) <= u32::MAX,
    decreases weights.len(),
{
    if weights.len() > 0 {
        lemma_weight_for_bounded(weights.drop_first(), name);
    }
}

/// The largest product of two `u32` values.
pub open spec fn max_term() -> int {
    0xFFFF_FFFE_0000_0001
}

fn weight_of(weights: &[(&str, u32)], name: &str) -> (w: u32)
    ensures
        w == weight_for(weights@, name@),
{
    let mut i: usize = 0;
    assert(weights@.subrange(0, weights@.len() as int) =~= weights@);
    while i < weights.len()
        invariant
            i <= weights@.len(),
            weight_for(weights@, name@) == weight_for(weights@.subrange(i as int, weights@.len() as int), name@),
        decreases weights@.len() - i,
    {
        let ghost rest = weights@.subrange(i as int, weights@.len() as int);
        assert(rest.drop_first() =~= weights@.subrange(i + 1, weights@.len() as int));
        if str_equal(weights[i].0, name) {
            return weights[i].1;
        }
        i = i + 1;
    }
    0
}

/// The summed weighted per-level bonus of every enchantment in
/// `enchantments` that `weights` lists; an item with none, or only
/// enchantments the table has no opinion on, gets 0.
pub fn enchantment_bonus(enchantments: &[(String, u32)], weights: &[(&str, u32)]) -> (bonus: u128)
    ensures
        bonus == bonus_total(enchantments@, weights@),
{
    let mut total: u128 = 0;
    let mut j: usize = enchantments.len();
    assert(enchantments@.subrange(j as int, j as int) =~= Seq::<(String, u32)>::empty());
    while j > 0
        invariant
            j <= enchantments@.len(),
            total == bonus_total(enchantments@.subrange(j as int, enchantments@.len() as int), weights@),
            total <= (enchantments@.len() - j) * max_term(),
        decreases j,
    {
        let ghost tail = enchantments@.subrange(j as int, enchantments@.len() as int);
        j = j - 1;
        assert(enchantments@.subrange(j as int, enchantments@.len() as int).drop_first() =~= tail);
        let weight = weight_of(weights, enchantments[j].0.as_str());
        let level = enchantments[j].1;
        proof {
            lemma_weight_for_bounded(weights@, enchantments@[j as int].0@);
        }
        assert((level as int) * (weight as int) <= max_term()) by (nonlinear_arith)
            requires
                level <= u32::MAX,
                weight <= u32::MAX,
        ;
        total = total + (level as u128) * (weight as u128);
    }
    assert(enchantments@.subrange(0, enchantments@.len() as int) =~= enchantments@);
    total
}

} // verus!
