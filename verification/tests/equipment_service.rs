use magic_bot::config::{EquipmentConfig, OffhandPriority, ToolRankingMode};
use magic_bot::container::model::{ClickButton, InventoryClick};
use magic_bot::equipment::armor::ArmorSlot;
use magic_bot::equipment::hotbar::{AutoDropGroup, HotbarEquipmentService, HotbarSwap, WATER_BUCKET_ID};
use magic_bot::equipment::manager::{swap_clicks, ArmorSwap, EquipmentService};
use magic_bot::equipment::model::{EquipmentItem, EquipmentSnapshot};
use magic_bot::equipment::offhand::{SHIELD, TOTEM_OF_UNDYING};
use magic_bot::equipment::tool_selection::ToolCategory;

fn item(slot: usize, id: &str, current: u32, max: u32) -> EquipmentItem {
    EquipmentItem { slot, item_id: id.into(), current_durability: current, max_durability: max }
}

fn snapshot(armor: [Option<EquipmentItem>; 4], offhand: Option<EquipmentItem>, inventory: Vec<EquipmentItem>) -> EquipmentSnapshot {
    EquipmentSnapshot { armor_worn: armor, offhand_worn: offhand, inventory }
}

fn hotbar_service() -> HotbarEquipmentService {
    let config = EquipmentConfig::default();
    HotbarEquipmentService::new(config.hotbar, config.tools, config.autodrop)
}

#[test]
fn a_better_helmet_replaces_the_worn_one() {
    let service = EquipmentService::new(EquipmentConfig::default());
    let snap = snapshot(
        [Some(item(5, "minecraft:leather_helmet", 50, 55)), None, None, None],
        None,
        vec![item(20, "minecraft:diamond_helmet", 363, 363), item(21, "minecraft:iron_helmet", 165, 165)],
    );
    assert_eq!(
        service.armor_swap(&snap, ArmorSlot::Head),
        Some(ArmorSwap {
            source: 20,
            target: 5,
            item_id: "minecraft:diamond_helmet".into(),
            displaced: Some("minecraft:leather_helmet".into()),
        })
    );
    assert_eq!(service.armor_swap(&snap, ArmorSlot::Chest), None);
}

#[test]
fn a_worse_piece_never_replaces_the_worn_one() {
    let service = EquipmentService::new(EquipmentConfig::default());
    let snap = snapshot(
        [None, None, None, Some(item(8, "minecraft:diamond_boots", 429, 429))],
        None,
        vec![item(20, "minecraft:iron_boots", 195, 195)],
    );
    assert_eq!(service.armor_swap(&snap, ArmorSlot::Feet), None);
}

#[test]
fn the_offhand_gets_the_preferred_item_once_and_never_flip_flops() {
    let service = EquipmentService::new(EquipmentConfig::default());
    let snap = snapshot([None, None, None, None], None, vec![item(12, SHIELD, 336, 336), item(30, TOTEM_OF_UNDYING, 0, 0)]);
    assert_eq!(service.offhand_swap(&snap), Some((30, TOTEM_OF_UNDYING)));
    // With the totem worn, the shield in the inventory is not swapped in.
    let worn = snapshot([None, None, None, None], Some(item(45, TOTEM_OF_UNDYING, 0, 0)), vec![item(12, SHIELD, 336, 336)]);
    assert_eq!(service.offhand_swap(&worn), None);
}

#[test]
fn a_shield_priority_takes_the_shield_and_falls_back_to_the_totem() {
    let mut config = EquipmentConfig::default();
    config.offhand.priority = OffhandPriority::Shield;
    let service = EquipmentService::new(config);
    let both = snapshot([None, None, None, None], None, vec![item(12, SHIELD, 336, 336), item(30, TOTEM_OF_UNDYING, 0, 0)]);
    assert_eq!(service.offhand_swap(&both), Some((12, SHIELD)));
    let totem_only = snapshot([None, None, None, None], None, vec![item(30, TOTEM_OF_UNDYING, 0, 0)]);
    assert_eq!(service.offhand_swap(&totem_only), Some((30, TOTEM_OF_UNDYING)));
    let nothing = snapshot([None, None, None, None], None, vec![]);
    assert_eq!(service.offhand_swap(&nothing), None);
}

#[test]
fn displaced_armor_is_kept_by_default() {
    let service = EquipmentService::new(EquipmentConfig::default());
    assert!(!service.drops_displaced_armor("minecraft:iron_helmet"));
}

#[test]
fn a_swap_is_pick_up_place_put_back() {
    let left = |slot| InventoryClick { slot, button: ClickButton::Left };
    assert_eq!(swap_clicks(20, 5), vec![left(20), left(5), left(20)]);
}

#[test]
fn the_hotbar_scans_on_a_new_revision_or_the_periodic_fallback() {
    let mut service = hotbar_service();
    assert!(service.scan_due(true, true, 7, 1000));
    assert!(!service.scan_due(true, true, 7, 2000));
    assert!(service.scan_due(true, true, 8, 2000));
    assert!(!service.scan_due(true, true, 8, 11_999));
    assert!(service.scan_due(true, true, 8, 12_000));
    assert!(!service.scan_due(false, true, 9, 50_000));
    assert!(!service.scan_due(true, false, 9, 50_000));
}

#[test]
fn a_disabled_hotbar_never_scans() {
    let mut config = EquipmentConfig::default();
    config.hotbar.enabled = false;
    let mut service = HotbarEquipmentService::new(config.hotbar, config.tools, config.autodrop);
    assert!(!service.scan_due(true, true, 1, 0));
}

#[test]
fn the_best_sword_moves_into_its_hotbar_slot() {
    let service = hotbar_service();
    let inventory = [item(36, "minecraft:stone_sword", 100, 131), item(20, "minecraft:diamond_sword", 1561, 1561)];
    assert_eq!(
        service.tool_swap(ToolCategory::Sword, Some(1), &inventory),
        Some(HotbarSwap {
            source: 20,
            target: 36,
            item_id: "minecraft:diamond_sword".into(),
            displaced: Some("minecraft:stone_sword".into()),
        })
    );
    // Already in place, or the category unmanaged: nothing to do.
    let settled = [item(36, "minecraft:diamond_sword", 1561, 1561)];
    assert_eq!(service.tool_swap(ToolCategory::Sword, Some(1), &settled), None);
    assert_eq!(service.tool_swap(ToolCategory::Sword, None, &inventory), None);
}

#[test]
fn a_same_tier_tool_is_not_swapped_in_rarity_mode() {
    let service = hotbar_service();
    assert_eq!(service.tools.ranking_mode, ToolRankingMode::Rarity);
    let inventory = [item(37, "minecraft:iron_pickaxe", 10, 250), item(20, "minecraft:iron_pickaxe", 250, 250)];
    assert_eq!(service.tool_swap(ToolCategory::Pickaxe, Some(2), &inventory), None);
}

#[test]
fn the_water_bucket_is_stocked_unless_already_there() {
    let service = hotbar_service();
    let inventory = [item(15, WATER_BUCKET_ID, 0, 0)];
    assert_eq!(service.stock_swap(WATER_BUCKET_ID, Some(6), &inventory), Some(15));
    let stocked = [item(41, WATER_BUCKET_ID, 0, 0), item(15, WATER_BUCKET_ID, 0, 0)];
    assert_eq!(service.stock_swap(WATER_BUCKET_ID, Some(6), &stocked), None);
    assert_eq!(service.stock_swap(WATER_BUCKET_ID, Some(6), &[]), None);
}

#[test]
fn the_preferred_block_is_stocked_from_outside_its_slot() {
    let service = hotbar_service();
    let inventory = [item(40, "minecraft:dirt", 0, 0), item(12, "minecraft:cobblestone", 0, 0)];
    assert_eq!(service.block_swap(Some(5), "minecraft:cobblestone", &inventory), Some(12));
    assert_eq!(service.block_swap(Some(5), "minecraft:dirt", &inventory), None);
}

#[test]
fn displaced_tools_and_weapons_drop_unless_protected() {
    let mut config = EquipmentConfig::default();
    config.autodrop.protected_items = vec!["minecraft:netherite_sword".into()];
    let service = HotbarEquipmentService::new(config.hotbar, config.tools, config.autodrop);
    assert!(service.drops_displaced(AutoDropGroup::Weapons, "minecraft:stone_sword"));
    assert!(service.drops_displaced(AutoDropGroup::Tools, "minecraft:stone_pickaxe"));
    assert!(!service.drops_displaced(AutoDropGroup::Weapons, "minecraft:netherite_sword"));
}
