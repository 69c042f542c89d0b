use magic_bot::combat::shield_break::{
    desired_weapon_category, is_durability_critical, own_shield_serviceable,
    should_switch_back_to_sword, should_wield_axe,
};
use magic_bot::equipment::model::EquipmentItem;
use magic_bot::equipment::offhand::{SHIELD, TOTEM_OF_UNDYING};
use magic_bot::equipment::tool_selection::ToolCategory;

#[test]
fn wields_axe_only_while_the_target_is_blocking() {
    assert!(should_wield_axe(true));
    assert!(!should_wield_axe(false));
}

#[test]
fn switches_back_the_instant_blocking_stops() {
    assert!(should_switch_back_to_sword(false));
    assert!(!should_switch_back_to_sword(true));
}

#[test]
fn the_two_policies_never_agree() {
    for blocking in [true, false] {
        assert_ne!(should_wield_axe(blocking), should_switch_back_to_sword(blocking));
    }
}

#[test]
fn prefers_the_sword_when_available_and_the_target_is_not_blocking() {
    assert_eq!(desired_weapon_category(false, true, true, false), ToolCategory::Sword);
}

#[test]
fn switches_to_the_axe_while_the_target_blocks_even_with_a_sword_available() {
    assert_eq!(desired_weapon_category(true, true, true, false), ToolCategory::Axe);
}

#[test]
fn falls_back_to_the_axe_when_no_sword_is_held_at_all() {
    assert_eq!(desired_weapon_category(false, false, true, false), ToolCategory::Axe);
}

#[test]
fn alternates_to_axe_on_its_turn_when_own_shield_is_unavailable() {
    assert_eq!(desired_weapon_category(false, true, false, true), ToolCategory::Axe);
}

#[test]
fn alternates_to_sword_on_its_turn_when_own_shield_is_unavailable() {
    assert_eq!(desired_weapon_category(false, true, false, false), ToolCategory::Sword);
}

#[test]
fn ignores_alternation_when_own_shield_is_available() {
    assert_eq!(desired_weapon_category(false, true, true, true), ToolCategory::Sword);
}

#[test]
fn target_blocking_still_wins_over_alternation() {
    assert_eq!(desired_weapon_category(true, true, false, true), ToolCategory::Axe);
}

#[test]
fn a_zero_max_durability_is_never_critical() {
    assert!(!is_durability_critical(0, 0));
}

#[test]
fn low_remaining_durability_is_critical() {
    assert!(is_durability_critical(10, 100));
    assert!(is_durability_critical(1, 100));
}

#[test]
fn healthy_durability_is_not_critical() {
    assert!(!is_durability_critical(50, 100));
    assert!(!is_durability_critical(100, 100));
}

#[test]
fn the_critical_boundary_is_exactly_one_tenth() {
    assert!(is_durability_critical(10, 100));
    assert!(!is_durability_critical(11, 100));
    assert!(is_durability_critical(33, 336));
    assert!(!is_durability_critical(34, 336));
}

fn equipment_item(item_id: &str, current_durability: u32, max_durability: u32) -> EquipmentItem {
    EquipmentItem {
        slot: 45,
        item_id: item_id.to_owned(),
        current_durability,
        max_durability,
    }
}

#[test]
fn nothing_in_the_offhand_is_never_serviceable() {
    assert!(!own_shield_serviceable(None));
}

#[test]
fn a_healthy_shield_is_serviceable() {
    let shield = equipment_item(SHIELD, 300, 336);
    assert!(own_shield_serviceable(Some(&shield)));
}

#[test]
fn a_critically_damaged_shield_is_not_serviceable() {
    let shield = equipment_item(SHIELD, 10, 336);
    assert!(!own_shield_serviceable(Some(&shield)));
}

#[test]
fn a_non_shield_offhand_item_is_never_serviceable() {
    let totem = equipment_item(TOTEM_OF_UNDYING, 1, 1);
    assert!(!own_shield_serviceable(Some(&totem)));
}
