//! Tests of the SSID-to-status lookup.

use automattermostatus::find_known_location;
use automattermostatus::state::Location;
use automattermostatus::status::MMStatus;

fn entry(wifi: &str, emoji: &str, text: &str) -> (Location, MMStatus) {
    (
        Location::Known(wifi.to_string()),
        MMStatus::new(text.to_string(), emoji.to_string()),
    )
}

#[test]
fn finds_first_matching_substring() {
    let list = vec![entry("corp", "office", "working"), entry("home", "house", "at home")];
    let ssids = vec!["neighbour".to_string(), "home-5G".to_string()];
    assert_eq!(find_known_location(&list, &ssids), Some(1));
    let ssids = vec!["corp-guest".to_string(), "home-5G".to_string()];
    assert_eq!(find_known_location(&list, &ssids), Some(0));
}

#[test]
fn empty_substring_reserved_for_off_time_never_matches() {
    let list = vec![entry("", "off", "off text")];
    let ssids = vec!["anything".to_string()];
    assert_eq!(find_known_location(&list, &ssids), None);
}

#[test]
fn no_visible_ssid_matches() {
    let list = vec![entry("corp", "office", "working")];
    let ssids: Vec<String> = vec!["other".to_string()];
    assert_eq!(find_known_location(&list, &ssids), None);
    let none: Vec<String> = Vec::new();
    assert_eq!(find_known_location(&list, &none), None);
}
