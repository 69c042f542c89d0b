use magic_bot::combat::mace::{
    is_smash_attack_window, random_mace_attempt_hits, smash_bonus_damage, MACE_ATTEMPT_MAX_HITS,
    MACE_ATTEMPT_MIN_HITS, MACE_COOLDOWN_MILLIS,
};
use magic_bot::rng::SeededRng;

// Fall distances in thousandths of a block, velocity in thousandths of a
// block per tick, damage in thousandths of a point.

#[test]
fn below_the_threshold_never_triggers() {
    assert!(!is_smash_attack_window(false, -1000, 1400));
    assert!(!is_smash_attack_window(false, -1000, 0));
}

#[test]
fn on_ground_or_rising_never_triggers_even_with_enough_recorded_fall() {
    assert!(!is_smash_attack_window(true, -1000, 5000), "on the ground");
    assert!(!is_smash_attack_window(false, 500, 5000), "still rising");
}

#[test]
fn falling_past_the_threshold_triggers() {
    assert!(is_smash_attack_window(false, -500, 1500));
    assert!(is_smash_attack_window(false, -500, 10000));
}

#[test]
fn the_cooldown_matches_the_vanilla_attack_speed_attribute() {
    // 1 / 0.6 attacks-per-second = 1.6666...s.
    let seconds = MACE_COOLDOWN_MILLIS as f64 / 1000.0;
    assert!((seconds - 1.0 / 0.6).abs() < 0.001);
}

#[test]
fn smash_bonus_is_zero_below_the_threshold() {
    assert_eq!(smash_bonus_damage(0), 0);
    assert_eq!(smash_bonus_damage(1499), 0);
}

#[test]
fn first_three_blocks_are_four_damage_each() {
    assert_eq!(smash_bonus_damage(1500), 6000);
    assert_eq!(smash_bonus_damage(3000), 12000);
}

#[test]
fn blocks_four_through_eight_are_two_damage_each() {
    assert_eq!(smash_bonus_damage(4000), 14000);
    assert_eq!(smash_bonus_damage(8000), 22000);
}

#[test]
fn blocks_past_eight_are_one_damage_each_uncapped() {
    assert_eq!(smash_bonus_damage(9000), 23000);
    assert_eq!(smash_bonus_damage(20000), 34000);
}

#[test]
fn bonus_damage_increases_monotonically_with_fall_distance() {
    let mut previous = 0;
    for fall in (1500..20000).step_by(250) {
        let bonus = smash_bonus_damage(fall);
        assert!(bonus >= previous);
        previous = bonus;
    }
}

#[test]
fn random_mace_attempt_hits_stays_within_the_configured_range() {
    let mut rng = SeededRng::new(1);
    for _ in 0..200 {
        let hits = random_mace_attempt_hits(&mut rng);
        assert!((MACE_ATTEMPT_MIN_HITS..=MACE_ATTEMPT_MAX_HITS).contains(&hits));
    }
}
