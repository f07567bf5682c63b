//! Tests of the configuration parsing.

use automattermostatus::config::{prepare_status, QuietVerbose, WifiStatusConfig};
use automattermostatus::state::Location;
use automattermostatus::status::MMStatus;

#[test]
fn parse_status_triplet() {
    let wsc = WifiStatusConfig::from_str("wifinet::house::Working home").unwrap();
    assert_eq!(wsc.wifi_string, "wifinet");
    assert_eq!(wsc.emoji, "house");
    assert_eq!(wsc.text, "Working home");
}

#[test]
fn reject_malformed_status_triplet() {
    assert!(WifiStatusConfig::from_str("only::one").is_err());
    assert!(WifiStatusConfig::from_str("a::b::c::d").is_err());
    assert!(WifiStatusConfig::from_str("plain").is_err());
}

#[test]
fn prepare_expected_status() {
    let status: Vec<String> = vec!["a::b::c", "d::e::f", "::off::off text"]
        .iter()
        .map(|s| s.to_string())
        .collect();
    let res = prepare_status(&status).unwrap();
    let expected = vec![
        (
            Location::Known("a".to_string()),
            MMStatus::new("c".to_string(), "b".to_string()),
        ),
        (
            Location::Known("d".to_string()),
            MMStatus::new("f".to_string(), "e".to_string()),
        ),
        (
            Location::Known("".to_string()),
            MMStatus::new("off text".to_string(), "off".to_string()),
        ),
    ];
    assert_eq!(res, expected);
}

#[test]
fn prepare_status_propagates_the_error() {
    let status: Vec<String> = vec!["a::b::c".to_string(), "broken".to_string()];
    assert!(prepare_status(&status).is_err());
}

#[test]
fn level_filter_names() {
    let level = |v: u8, q: u8| QuietVerbose { verbosity_level: v, quiet_level: q }.get_level_filter();
    assert_eq!(level(0, 2), "Off");
    assert_eq!(level(0, 5), "Off");
    assert_eq!(level(0, 1), "Error");
    assert_eq!(level(0, 0), "Warn");
    assert_eq!(level(1, 0), "Info");
    assert_eq!(level(2, 0), "Debug");
    assert_eq!(level(3, 0), "Trace");
    assert_eq!(level(9, 0), "Trace");
}

#[test]
fn level_from_name_ignores_case() {
    let v = QuietVerbose::from_level_str("Debug");
    assert_eq!((v.verbosity_level, v.quiet_level), (2, 0));
    let v = QuietVerbose::from_level_str("OFF");
    assert_eq!((v.verbosity_level, v.quiet_level), (0, 2));
    let v = QuietVerbose::from_level_str("anything");
    assert_eq!((v.verbosity_level, v.quiet_level), (3, 0));
    let v = QuietVerbose::default();
    assert_eq!((v.verbosity_level, v.quiet_level), (1, 0));
}

#[test]
fn duplicate_wifi_substring_keeps_the_last_status() {
    let status: Vec<String> = vec!["a::b::c", "a::e::f"].iter().map(|s| s.to_string()).collect();
    let res = prepare_status(&status).unwrap();
    let expected = vec![(
        Location::Known("a".to_string()),
        MMStatus::new("f".to_string(), "e".to_string()),
    )];
    assert_eq!(res, expected);
}
