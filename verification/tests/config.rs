use magic_bot::config::{check_block_navigation_limits, check_interaction_limits, check_look_timing, check_survival_latency};
use magic_bot::config::OutputMode;

#[test]
fn output_mode_parses_every_spelling_case_insensitively() {
    assert_eq!(OutputMode::parse("none"), Some(OutputMode::Off));
    assert_eq!(OutputMode::parse("LIGHT"), Some(OutputMode::Light));
    assert_eq!(OutputMode::parse("Info"), Some(OutputMode::Info));
    assert_eq!(OutputMode::parse("debug"), Some(OutputMode::Debug));
    assert_eq!(OutputMode::parse("fulldebug"), Some(OutputMode::FullDebug));
    assert_eq!(OutputMode::parse("full-debug"), Some(OutputMode::FullDebug));
    assert_eq!(OutputMode::parse("full_debug"), Some(OutputMode::FullDebug));
    assert_eq!(OutputMode::parse("nonsense"), None);
}

#[test]
fn output_mode_orders_from_least_to_most_verbose() {
    assert!(OutputMode::Off < OutputMode::Light);
    assert!(OutputMode::Light < OutputMode::Info);
    assert!(OutputMode::Info < OutputMode::Debug);
    assert!(OutputMode::Debug < OutputMode::FullDebug);
}

#[test]
fn every_mode_name_parses_back_to_its_mode() {
    for mode in [OutputMode::Off, OutputMode::Light, OutputMode::Info, OutputMode::Debug, OutputMode::FullDebug] {
        assert_eq!(OutputMode::parse(mode.as_str()), Some(mode));
    }
    assert_eq!(OutputMode::Off.as_str(), "none");
    assert_eq!(OutputMode::parse("  Full-Debug  "), Some(OutputMode::FullDebug));
}

#[test]
fn block_navigation_limits_are_bounded() {
    assert!(check_block_navigation_limits(8, 10, 60, 500).is_ok());
    for (attempts, stuck, maximum, repath) in [(0, 10, 60, 500), (65, 10, 60, 500), (8, 0, 60, 500), (8, 3601, 60, 500), (8, 10, 0, 500), (8, 10, 60, 99), (8, 10, 60, 10_001)] {
        let e = check_block_navigation_limits(attempts, stuck, maximum, repath).unwrap_err();
        assert!(matches!(e, magic_bot::error::AppError::InvalidBlockNavigationConfiguration(_)));
    }
}

#[test]
fn look_timing_rules() {
    assert!(check_look_timing(20, 50, 150, 200, 900).is_ok());
    assert!(check_look_timing(0, 50, 150, 200, 900).is_err());
    assert!(check_look_timing(121, 50, 150, 200, 900).is_err());
    assert!(check_look_timing(20, 150, 50, 200, 900).is_err());
    assert!(check_look_timing(20, 50, 150, 0, 900).is_err());
    let e = check_look_timing(20, 50, 150, 900, 200).unwrap_err();
    assert!(matches!(e, magic_bot::error::AppError::InvalidLookConfiguration(_)));
}

#[test]
fn interaction_and_survival_limits() {
    assert!(check_interaction_limits(3, 250, 2000, 6, 5).is_ok());
    assert!(check_interaction_limits(11, 250, 2000, 6, 5).is_err());
    assert!(check_interaction_limits(3, 0, 2000, 6, 5).is_err());
    assert!(check_interaction_limits(3, 250, 30_001, 6, 5).is_err());
    assert!(check_interaction_limits(3, 250, 2000, 7, 5).is_err());
    let e = check_interaction_limits(3, 250, 2000, 6, 0).unwrap_err();
    assert!(matches!(e, magic_bot::error::AppError::InvalidInteractionConfiguration(_)));
    assert!(check_survival_latency(2000).is_ok());
    let e = check_survival_latency(2001).unwrap_err();
    assert!(matches!(e, magic_bot::error::AppError::InvalidSurvivalConfiguration(_)));
}

#[test]
fn the_default_hotbar_layout_passes_the_hotbar_check() {
    let config = magic_bot::config::HotbarEquipmentConfig::default();
    assert!(config.check().is_ok());
}
