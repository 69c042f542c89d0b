use magic_bot::combat::crits::{
    attack_ready, is_critical_window, is_sword, should_force_crit_jump, should_prejump_for_crit,
    time_until_ready, weapon_cooldown, CRIT_HOLD_TIMEOUT, CRIT_JUMP_LEAD, FORCED_CRIT_JUMP_RETRY,
    JUMP_COOLDOWN, SWORD_COOLDOWN,
};

const MS: u64 = 1_000_000;
const COOLDOWN: u64 = 1650 * MS;
const NOW: u64 = 5_000_000_000;

#[test]
fn attack_is_ready_immediately_with_no_prior_attack() {
    assert!(attack_ready(None, NOW, COOLDOWN));
    assert_eq!(time_until_ready(None, NOW, COOLDOWN), 0);
}

#[test]
fn attack_is_not_ready_before_the_full_configured_cooldown() {
    let now = NOW;
    assert!(!attack_ready(Some(now), now + COOLDOWN / 2, COOLDOWN));
    assert!(!attack_ready(Some(now), now + COOLDOWN - MS, COOLDOWN));
}

#[test]
fn the_configured_cooldown_is_honored_exactly_rather_than_shaved() {
    let now = NOW;
    assert!(attack_ready(Some(now), now + COOLDOWN, COOLDOWN));
    assert!(!attack_ready(Some(now), now + 1485 * MS, COOLDOWN));
}

#[test]
fn a_different_configured_cadence_changes_the_spacing() {
    let now = NOW;
    let fast = 300 * MS;
    assert!(attack_ready(Some(now), now + fast, fast));
    assert!(!attack_ready(Some(now), now + fast, COOLDOWN));
}

#[test]
fn time_until_ready_counts_down_and_saturates_at_zero() {
    let now = NOW;
    assert_eq!(time_until_ready(Some(now), now, COOLDOWN), COOLDOWN, "nothing elapsed yet");
    assert_eq!(time_until_ready(Some(now), now + 650 * MS, COOLDOWN), 1000 * MS);
    assert_eq!(time_until_ready(Some(now), now + COOLDOWN * 3, COOLDOWN), 0);
}

#[test]
fn every_sword_recharges_on_the_vanilla_sword_clock() {
    for sword in [
        "minecraft:wooden_sword",
        "minecraft:stone_sword",
        "minecraft:iron_sword",
        "minecraft:golden_sword",
        "minecraft:diamond_sword",
        "minecraft:netherite_sword",
    ] {
        assert_eq!(weapon_cooldown(Some(sword)), SWORD_COOLDOWN, "{sword}");
    }
}

#[test]
fn axes_recharge_slower_than_swords_and_differ_by_material() {
    assert_eq!(weapon_cooldown(Some("minecraft:netherite_axe")), 1000 * MS);
    assert_eq!(
        weapon_cooldown(Some("minecraft:iron_axe")),
        std::time::Duration::from_secs_f64(1.0 / 0.9).as_nanos() as u64
    );
    assert_eq!(weapon_cooldown(Some("minecraft:stone_axe")), 1250 * MS);
    assert!(weapon_cooldown(Some("minecraft:diamond_axe")) > SWORD_COOLDOWN);
}

#[test]
fn an_unknown_item_or_empty_hand_uses_the_default_attack_speed() {
    assert_eq!(weapon_cooldown(None), 250 * MS);
    assert_eq!(weapon_cooldown(Some("minecraft:cooked_beef")), 250 * MS);
    assert_eq!(
        weapon_cooldown(Some("minecraft:diamond_hoe")),
        250 * MS,
        "a diamond hoe genuinely does swing at 4.0/s"
    );
}

#[test]
fn other_tools_use_their_own_attack_speed() {
    assert_eq!(
        weapon_cooldown(Some("minecraft:trident")),
        std::time::Duration::from_secs_f64(1.0 / 1.1).as_nanos() as u64
    );
    assert_eq!(
        weapon_cooldown(Some("minecraft:diamond_pickaxe")),
        std::time::Duration::from_secs_f64(1.0 / 1.2).as_nanos() as u64
    );
    assert_eq!(weapon_cooldown(Some("minecraft:iron_shovel")), 1000 * MS);
    assert_eq!(weapon_cooldown(Some("minecraft:stone_hoe")), 500 * MS);
    assert_eq!(
        weapon_cooldown(Some("minecraft:iron_hoe")),
        std::time::Duration::from_secs_f64(1.0 / 3.0).as_nanos() as u64
    );
}

#[test]
fn critical_window_requires_airborne_and_descending() {
    assert!(is_critical_window(false, -100));
    assert!(!is_critical_window(true, -100), "on the ground");
    assert!(!is_critical_window(false, 500), "still rising");
    assert!(!is_critical_window(false, 0), "apex, not yet falling");
}

#[test]
fn the_crit_jump_fires_shortly_before_the_cooldown_opens() {
    let now = NOW;
    let attacked_at = Some(now);
    assert!(!should_prejump_for_crit(true, true, attacked_at, None, now + 500 * MS, COOLDOWN));
    assert!(should_prejump_for_crit(
        true,
        true,
        attacked_at,
        None,
        now + COOLDOWN - 200 * MS,
        COOLDOWN
    ));
}

#[test]
fn the_crit_jump_still_fires_once_the_cooldown_is_already_up() {
    let now = NOW;
    assert!(should_prejump_for_crit(true, true, Some(now), None, now + COOLDOWN * 2, COOLDOWN));
}

#[test]
fn the_crit_jump_needs_ground_and_range_and_respects_its_own_cooldown() {
    let now = NOW;
    let ready_moment = now + COOLDOWN;
    assert!(should_prejump_for_crit(true, true, Some(now), None, ready_moment, COOLDOWN));
    assert!(
        !should_prejump_for_crit(false, true, Some(now), None, ready_moment, COOLDOWN),
        "already airborne"
    );
    assert!(
        !should_prejump_for_crit(true, false, Some(now), None, ready_moment, COOLDOWN),
        "out of range"
    );
    assert!(
        !should_prejump_for_crit(true, true, Some(now), Some(ready_moment - MS), ready_moment, COOLDOWN),
        "jumped a moment ago"
    );
}

#[test]
fn swords_are_recognized_and_other_weapons_are_not() {
    assert!(is_sword(Some("minecraft:netherite_sword")));
    assert!(is_sword(Some("wooden_sword")));
    assert!(!is_sword(Some("minecraft:diamond_axe")));
    assert!(!is_sword(Some("minecraft:trident")));
    assert!(!is_sword(None));
}

#[test]
fn a_ready_sword_swing_on_the_ground_jumps_instead_of_hitting_flat() {
    assert!(should_force_crit_jump(true, true, None, NOW, None));
}

#[test]
fn the_forced_crit_jump_needs_ground_and_range() {
    assert!(
        !should_force_crit_jump(false, true, None, NOW, None),
        "already airborne -- the swing is about to land as a crit anyway"
    );
    assert!(!should_force_crit_jump(true, false, None, NOW, None));
}

#[test]
fn a_held_swing_is_released_once_the_hold_times_out() {
    let now = NOW;
    assert!(should_force_crit_jump(true, true, None, now, Some(CRIT_HOLD_TIMEOUT - MS)));
    assert!(!should_force_crit_jump(true, true, None, now, Some(CRIT_HOLD_TIMEOUT)));
    assert!(!should_force_crit_jump(true, true, None, now, Some(CRIT_HOLD_TIMEOUT * 10)));
}

#[test]
fn the_forced_jump_retries_quickly_but_does_not_spam_every_tick() {
    let now = NOW;
    assert!(
        !should_force_crit_jump(true, true, Some(now), now + 50 * MS, Some(50 * MS)),
        "one tick later is too soon to re-send a jump"
    );
    assert!(should_force_crit_jump(
        true,
        true,
        Some(now),
        now + FORCED_CRIT_JUMP_RETRY,
        Some(FORCED_CRIT_JUMP_RETRY)
    ));
}

#[test]
fn the_jump_cooldown_never_blocks_a_sword_crit() {
    assert!(JUMP_COOLDOWN < SWORD_COOLDOWN);
}

#[test]
fn a_cadence_shorter_than_the_jump_arc_never_pre_jumps() {
    let now = NOW;
    let fast = CRIT_JUMP_LEAD - 50 * MS;
    assert!(!should_prejump_for_crit(true, true, Some(now), None, now + fast, fast));
}
