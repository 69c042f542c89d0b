use magic_bot::combat::heal::{best_food, FoodOption};

fn option(slot: usize, item_id: &str, nutrition: i32) -> FoodOption<'_> {
    FoodOption { slot, item_id, nutrition }
}

#[test]
fn no_food_is_none() {
    assert_eq!(best_food(&[]), None);
}

#[test]
fn prefers_golden_apple_over_everything_else() {
    let candidates = [
        option(0, "minecraft:cooked_beef", 8),
        option(1, "minecraft:golden_apple", 4),
    ];
    assert_eq!(best_food(&candidates), Some(candidates[1]));
}

#[test]
fn follows_the_named_priority_order_when_no_golden_apple_is_held() {
    let candidates = [
        option(0, "minecraft:cooked_chicken", 6),
        option(1, "minecraft:cooked_porkchop", 8),
    ];
    assert_eq!(best_food(&candidates), Some(candidates[1]));
}

#[test]
fn falls_back_to_highest_nutrition_for_unnamed_food() {
    let candidates = [
        option(0, "minecraft:melon_slice", 2),
        option(1, "minecraft:pumpkin_pie", 8),
        option(2, "minecraft:sweet_berries", 2),
    ];
    assert_eq!(best_food(&candidates), Some(candidates[1]));
}

#[test]
fn a_named_priority_item_still_wins_over_higher_nutrition_unnamed_food() {
    let candidates = [
        option(0, "minecraft:rabbit_stew", 10),
        option(1, "minecraft:bread", 5),
    ];
    assert_eq!(best_food(&candidates), Some(candidates[1]));
}

#[test]
fn equal_nutrition_ties_go_to_the_first_candidate() {
    let candidates = [
        option(3, "minecraft:melon_slice", 2),
        option(4, "minecraft:sweet_berries", 2),
    ];
    assert_eq!(best_food(&candidates), Some(candidates[0]));
}

#[test]
fn the_first_of_two_equal_named_items_is_chosen() {
    let candidates = [
        option(5, "minecraft:bread", 5),
        option(6, "minecraft:bread", 5),
    ];
    assert_eq!(best_food(&candidates).map(|f| f.slot), Some(5));
}
