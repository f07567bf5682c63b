//! Tests of the "hh:mm" time-of-day parsing.

use automattermostatus::utils::{parse_from_hmstr, TimeOfDay};

#[test]
fn return_none_if_unparsable() {
    assert_eq!(None, parse_from_hmstr(&None));
    assert_eq!(None, parse_from_hmstr(&Some("biii".to_string())));
    assert_eq!(None, parse_from_hmstr(&Some(":12:30".to_string())));
}

#[test]
fn return_hour_if_mn_is_unparsable() {
    let expect = Some(TimeOfDay { hh: 12, mm: 0 });
    assert_eq!(expect, parse_from_hmstr(&Some("12:3O".to_string())));
    assert_eq!(expect, parse_from_hmstr(&Some("12".to_string())));
}

#[test]
fn return_expected_date() {
    let expect = Some(TimeOfDay { hh: 7, mm: 1 });
    assert_eq!(expect, parse_from_hmstr(&Some("07:01".to_string())));
    assert_eq!(expect, parse_from_hmstr(&Some("7:1".to_string())));
    let expect = Some(TimeOfDay { hh: 23, mm: 39 });
    assert_eq!(expect, parse_from_hmstr(&Some("23:39".to_string())));
}

#[test]
fn reject_times_that_do_not_exist() {
    assert_eq!(None, parse_from_hmstr(&Some("24:00".to_string())));
    assert_eq!(None, parse_from_hmstr(&Some("12:60".to_string())));
    assert_eq!(None, parse_from_hmstr(&Some("99999999999".to_string())));
}
