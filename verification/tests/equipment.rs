use magic_bot::config::{ArmorMode, AutoDropCategoryConfig, OffhandPriority, ToolRankingMode};
use magic_bot::equipment::armor::{self, classify, score, ArmorMaterial, ArmorSlot};
use magic_bot::equipment::autodrop::should_drop;
use magic_bot::equipment::hotbar::protocol_slot;
use magic_bot::equipment::model::EquipmentItem;
use magic_bot::equipment::offhand::{desired_item, SHIELD, TOTEM_OF_UNDYING};
use magic_bot::equipment::scoring::{armor_enchantment_weights, enchantment_bonus, penalize_for_durability, weapon_enchantment_weights};
use magic_bot::equipment::tool_selection::{category, tier, ToolCategory};
use magic_bot::equipment::tools::{self, rank_score};

// Scores are in tenths of a point: 10 is 1.0, 100 is 10.0.

fn item(slot: usize, id: &str, current: u32, max: u32) -> EquipmentItem {
    EquipmentItem { slot, item_id: id.into(), current_durability: current, max_durability: max }
}

#[test]
fn classifies_every_material_and_slot() {
    assert_eq!(classify("minecraft:netherite_helmet"), Some((ArmorSlot::Head, ArmorMaterial::Netherite)));
    assert_eq!(classify("golden_chestplate"), Some((ArmorSlot::Chest, ArmorMaterial::Gold)));
    assert_eq!(classify("minecraft:iron_leggings"), Some((ArmorSlot::Legs, ArmorMaterial::Iron)));
    assert_eq!(classify("minecraft:diamond_boots"), Some((ArmorSlot::Feet, ArmorMaterial::Diamond)));
    assert_eq!(classify("minecraft:copper_chestplate"), Some((ArmorSlot::Chest, ArmorMaterial::Copper)));
    assert_eq!(classify("minecraft:carved_pumpkin"), None);
    assert_eq!(classify("minecraft:elytra"), None);
}

#[test]
fn copper_ranks_between_gold_and_chainmail() {
    assert!(ArmorMaterial::Copper > ArmorMaterial::Gold);
    assert!(ArmorMaterial::Copper < ArmorMaterial::Chainmail);
    assert!(ArmorMaterial::Copper.rank() > ArmorMaterial::Gold.rank());
    assert!(ArmorMaterial::Copper.rank() < ArmorMaterial::Chainmail.rank());
}

#[test]
fn full_durability_scores_match_base_material_score() {
    assert_eq!(score(ArmorMaterial::Netherite, 100, 100), 100);
    assert_eq!(score(ArmorMaterial::Diamond, 100, 100), 80);
    assert_eq!(score(ArmorMaterial::Iron, 100, 100), 50);
}

#[test]
fn damaged_netherite_can_fall_below_undamaged_diamond() {
    // 10% remaining: 10 - (1 - 0.1) * 6 = 4.6.
    let damaged_netherite = score(ArmorMaterial::Netherite, 10, 100);
    assert_eq!(damaged_netherite, 46);
    let full_diamond = score(ArmorMaterial::Diamond, 100, 100);
    assert!(damaged_netherite < full_diamond);
}

#[test]
fn armor_score_never_leaves_the_one_to_ten_range() {
    assert_eq!(score(ArmorMaterial::Leather, 0, 100), 10);
    assert_eq!(score(ArmorMaterial::Netherite, 100, 100), 100);
}

#[test]
fn armor_missing_durability_data_is_treated_as_full_durability() {
    assert_eq!(score(ArmorMaterial::Diamond, 0, 0), 80);
}

#[test]
fn best_candidate_in_score_mode_prefers_higher_score_over_higher_tier() {
    let inventory = vec![
        item(10, "minecraft:netherite_helmet", 1, 100),
        item(11, "minecraft:diamond_helmet", 100, 100),
    ];
    let best = armor::best_candidate(ArmorMode::Score, ArmorSlot::Head, &inventory).unwrap();
    assert_eq!(best.item.slot, 11);
}

#[test]
fn best_candidate_in_rarity_mode_ignores_durability() {
    let inventory = vec![
        item(10, "minecraft:netherite_helmet", 1, 100),
        item(11, "minecraft:diamond_helmet", 100, 100),
    ];
    let best = armor::best_candidate(ArmorMode::Rarity, ArmorSlot::Head, &inventory).unwrap();
    assert_eq!(best.item.slot, 10);
}

#[test]
fn should_replace_requires_a_meaningful_score_improvement() {
    let candidate_item = item(1, "minecraft:diamond_helmet", 100, 100);
    let candidate = armor::Candidate { item: &candidate_item, material: ArmorMaterial::Diamond };
    let worn_barely_lower = item(5, "minecraft:diamond_helmet", 98, 100);
    assert!(!armor::should_replace(ArmorMode::Score, Some(&worn_barely_lower), candidate));
    let worn_much_lower = item(5, "minecraft:diamond_helmet", 50, 100);
    assert!(armor::should_replace(ArmorMode::Score, Some(&worn_much_lower), candidate));
    assert!(armor::should_replace(ArmorMode::Score, None, candidate));
}

#[test]
fn should_replace_in_rarity_mode_ignores_durability_and_requires_a_higher_tier() {
    let candidate_item = item(1, "minecraft:diamond_helmet", 1, 100);
    let candidate = armor::Candidate { item: &candidate_item, material: ArmorMaterial::Diamond };
    let worn_same_tier = item(5, "minecraft:diamond_helmet", 100, 100);
    assert!(!armor::should_replace(ArmorMode::Rarity, Some(&worn_same_tier), candidate));
    let worn_lower_tier = item(5, "minecraft:iron_helmet", 100, 100);
    assert!(armor::should_replace(ArmorMode::Rarity, Some(&worn_lower_tier), candidate));
}

#[test]
fn should_replace_treats_an_unclassifiable_worn_item_as_empty() {
    let candidate_item = item(1, "minecraft:leather_helmet", 100, 100);
    let candidate = armor::Candidate { item: &candidate_item, material: ArmorMaterial::Leather };
    let worn_pumpkin = item(5, "minecraft:carved_pumpkin", 0, 0);
    assert!(armor::should_replace(ArmorMode::Score, Some(&worn_pumpkin), candidate));
}

#[test]
fn armor_slots_map_to_their_protocol_slots() {
    assert_eq!(ArmorSlot::Head.protocol_slot(), 5);
    assert_eq!(ArmorSlot::Chest.protocol_slot(), 6);
    assert_eq!(ArmorSlot::Legs.protocol_slot(), 7);
    assert_eq!(ArmorSlot::Feet.protocol_slot(), 8);
    assert_eq!(ArmorSlot::Feet.index(), 3);
}

#[test]
fn full_durability_matches_the_base_score() {
    assert_eq!(penalize_for_durability(100, 100, 100), 100);
    assert_eq!(penalize_for_durability(50, 100, 100), 50);
}

#[test]
fn low_durability_can_drag_a_high_base_score_below_a_lower_one() {
    assert!(penalize_for_durability(100, 10, 100) < penalize_for_durability(80, 100, 100));
}

#[test]
fn scoring_score_never_leaves_the_one_to_ten_range() {
    assert_eq!(penalize_for_durability(10, 0, 100), 10);
    assert_eq!(penalize_for_durability(100, 100, 100), 100);
}

#[test]
fn scoring_missing_durability_data_is_treated_as_full_durability() {
    assert_eq!(penalize_for_durability(80, 0, 0), 80);
}

#[test]
fn the_penalty_rounds_to_the_nearest_tenth() {
    // 8.5 - 0.01 * 6 = 8.44 -> 8.4; 8.0 - 0.02 * 6 = 7.88 -> 7.9.
    assert_eq!(penalize_for_durability(85, 99, 100), 84);
    assert_eq!(penalize_for_durability(80, 98, 100), 79);
    // Durability above the maximum counts as full.
    assert_eq!(penalize_for_durability(50, 150, 100), 50);
}

#[test]
fn best_candidate_in_rarity_mode_prefers_higher_tier_regardless_of_durability() {
    let inventory = vec![
        item(10, "minecraft:netherite_pickaxe", 1, 100),
        item(11, "minecraft:diamond_pickaxe", 100, 100),
    ];
    let best = tools::best_candidate(ToolRankingMode::Rarity, ToolCategory::Pickaxe, &inventory).unwrap();
    assert_eq!(best.item.slot, 10);
}

#[test]
fn best_candidate_in_score_mode_can_prefer_a_pristine_lower_tier() {
    let inventory = vec![
        item(10, "minecraft:netherite_pickaxe", 1, 100),
        item(11, "minecraft:diamond_pickaxe", 100, 100),
    ];
    let best = tools::best_candidate(ToolRankingMode::Score, ToolCategory::Pickaxe, &inventory).unwrap();
    assert_eq!(best.item.slot, 11);
}

#[test]
fn best_candidate_ignores_the_wrong_category() {
    let inventory = vec![item(10, "minecraft:diamond_axe", 100, 100)];
    assert!(tools::best_candidate(ToolRankingMode::Rarity, ToolCategory::Pickaxe, &inventory).is_none());
}

#[test]
fn tool_ties_go_to_the_later_candidate() {
    let inventory = vec![
        item(10, "minecraft:iron_axe", 100, 100),
        item(11, "minecraft:iron_axe", 100, 100),
    ];
    let best = tools::best_candidate(ToolRankingMode::Rarity, ToolCategory::Axe, &inventory).unwrap();
    assert_eq!(best.item.slot, 11);
}

#[test]
fn should_replace_in_rarity_mode_requires_a_strictly_higher_tier() {
    let candidate_item = item(1, "minecraft:diamond_sword", 100, 100);
    let candidate = tools::Candidate { item: &candidate_item, tier: tier("minecraft:diamond_sword") };
    let held_same_tier = item(5, "minecraft:diamond_sword", 10, 100);
    assert!(!tools::should_replace(ToolRankingMode::Rarity, Some(&held_same_tier), candidate));
    let held_lower_tier = item(5, "minecraft:iron_sword", 100, 100);
    assert!(tools::should_replace(ToolRankingMode::Rarity, Some(&held_lower_tier), candidate));
    assert!(tools::should_replace(ToolRankingMode::Rarity, None, candidate));
}

#[test]
fn should_replace_in_score_mode_requires_a_meaningful_improvement() {
    let candidate_item = item(1, "minecraft:diamond_pickaxe", 100, 100);
    let candidate = tools::Candidate { item: &candidate_item, tier: tier("minecraft:diamond_pickaxe") };
    let held_barely_lower = item(5, "minecraft:diamond_pickaxe", 99, 100);
    assert!(!tools::should_replace(ToolRankingMode::Score, Some(&held_barely_lower), candidate));
    let held_much_lower = item(5, "minecraft:stone_pickaxe", 100, 100);
    assert!(tools::should_replace(ToolRankingMode::Score, Some(&held_much_lower), candidate));
}

#[test]
fn rank_score_matches_the_armor_scale_at_full_durability() {
    assert_eq!(rank_score(&item(0, "minecraft:netherite_axe", 100, 100)), 100);
    assert_eq!(rank_score(&item(0, "minecraft:wooden_hoe", 100, 100)), 10);
    assert_eq!(rank_score(&item(0, "minecraft:diamond_pickaxe", 100, 100)), 85);
}

#[test]
fn tool_categories_and_tiers_come_from_the_item_name() {
    assert_eq!(category("minecraft:golden_shovel"), Some(ToolCategory::Shovel));
    assert_eq!(category("stone_hoe"), Some(ToolCategory::Hoe));
    assert_eq!(category("minecraft:shield"), None);
    assert_eq!(tier("minecraft:wooden_sword"), 1);
    assert_eq!(tier("minecraft:netherite_sword"), 7);
}

fn drop_category(enabled: bool) -> AutoDropCategoryConfig {
    AutoDropCategoryConfig { enabled, drop_when_better_available: true }
}

#[test]
fn drops_only_when_every_gate_is_open() {
    assert!(should_drop(true, &drop_category(true), "minecraft:wooden_pickaxe", &[]));
}

#[test]
fn master_switch_overrides_category() {
    assert!(!should_drop(false, &drop_category(true), "minecraft:wooden_pickaxe", &[]));
}

#[test]
fn category_disabled_blocks_the_drop() {
    assert!(!should_drop(true, &drop_category(false), "minecraft:wooden_pickaxe", &[]));
}

#[test]
fn drop_when_better_available_false_blocks_the_only_current_trigger() {
    let category = AutoDropCategoryConfig { enabled: true, drop_when_better_available: false };
    assert!(!should_drop(true, &category, "minecraft:wooden_pickaxe", &[]));
}

#[test]
fn protected_items_are_never_dropped() {
    assert!(!should_drop(
        true,
        &drop_category(true),
        "minecraft:wooden_pickaxe",
        &["minecraft:wooden_pickaxe".to_owned()]
    ));
}

#[test]
fn protection_is_by_exact_id_only() {
    assert!(should_drop(
        true,
        &drop_category(true),
        "minecraft:stone_pickaxe",
        &["minecraft:wooden_pickaxe".to_owned()]
    ));
}

#[test]
fn totem_priority_prefers_totem_when_both_are_available() {
    assert_eq!(desired_item(OffhandPriority::Totem, true, true), Some(TOTEM_OF_UNDYING));
}

#[test]
fn totem_priority_falls_back_to_shield() {
    assert_eq!(desired_item(OffhandPriority::Totem, false, true), Some(SHIELD));
}

#[test]
fn shield_priority_prefers_shield_when_both_are_available() {
    assert_eq!(desired_item(OffhandPriority::Shield, true, true), Some(SHIELD));
}

#[test]
fn shield_priority_falls_back_to_totem() {
    assert_eq!(desired_item(OffhandPriority::Shield, true, false), Some(TOTEM_OF_UNDYING));
}

#[test]
fn neither_available_leaves_the_offhand_unchanged() {
    assert_eq!(desired_item(OffhandPriority::Totem, false, false), None);
    assert_eq!(desired_item(OffhandPriority::Shield, false, false), None);
}

#[test]
fn protocol_slot_maps_in_game_slot_one_to_the_first_hotbar_protocol_slot() {
    assert_eq!(protocol_slot(1), 36);
    assert_eq!(protocol_slot(9), 44);
}

// Enchantment bonuses are in hundredths of a score point: 250 is 2.5.

#[test]
fn unenchanted_item_gets_no_bonus() {
    assert_eq!(enchantment_bonus(&[], &weapon_enchantment_weights()), 0);
}

#[test]
fn known_weapon_enchantments_scale_with_level() {
    assert_eq!(enchantment_bonus(&[("sharpness".to_owned(), 5)], &weapon_enchantment_weights()), 250);
}

#[test]
fn multiple_enchantments_sum() {
    let enchantments = [("sharpness".to_owned(), 5), ("knockback".to_owned(), 2)];
    assert_eq!(enchantment_bonus(&enchantments, &weapon_enchantment_weights()), 250 + 30);
}

#[test]
fn an_enchantment_this_scoring_has_no_opinion_on_contributes_nothing() {
    // Unbreaking helps durability, not raw combat power, and isn't in
    // either weight table.
    assert_eq!(enchantment_bonus(&[("unbreaking".to_owned(), 3)], &weapon_enchantment_weights()), 0);
}

#[test]
fn a_mob_specific_weapon_enchantment_is_weighted_lower_than_sharpness() {
    let sharpness = enchantment_bonus(&[("sharpness".to_owned(), 1)], &weapon_enchantment_weights());
    let smite = enchantment_bonus(&[("smite".to_owned(), 1)], &weapon_enchantment_weights());
    assert!(sharpness > smite);
}

#[test]
fn armor_weights_are_independent_of_weapon_weights() {
    // "sharpness" means nothing on armor.
    assert_eq!(enchantment_bonus(&[("sharpness".to_owned(), 5)], &armor_enchantment_weights()), 0);
    assert_eq!(enchantment_bonus(&[("protection".to_owned(), 4)], &armor_enchantment_weights()), 160);
}

#[test]
fn the_first_listed_weight_wins_and_huge_levels_do_not_overflow() {
    let weights = [("sharpness", 7u32), ("sharpness", 100u32)];
    assert_eq!(enchantment_bonus(&[("sharpness".to_owned(), 3)], &weights), 21);
    let big = [("sharpness".to_owned(), u32::MAX), ("sharpness".to_owned(), u32::MAX)];
    assert_eq!(enchantment_bonus(&big, &[("sharpness", u32::MAX)]), 2 * (u32::MAX as u128) * (u32::MAX as u128));
}
