//! Tests of the days-off store.

use automattermostatus::offtime::{is_outside_hours, OffDays, Parity, Weekday};

#[test]
fn return_false_when_day_dont_match() {
    let mut leave = OffDays::new();
    leave.insert(Weekday::Mon, Parity::EveryWeek);
    // Tuesday of ISO week 1 of 2015.
    assert_eq!(leave.is_off_at(Weekday::Tue, 1), false);
}

#[test]
fn return_true_when_match_and_no_parity() {
    let mut leave = OffDays::new();
    leave.insert(Weekday::Tue, Parity::EveryWeek);
    assert_eq!(leave.is_off_at(Weekday::Tue, 1), true);
}

#[test]
fn return_true_when_day_and_parity_match() {
    let mut leave = OffDays::new();
    leave.insert(Weekday::Wed, Parity::OddWeek);
    // Wednesday of ISO week 15 of 2015.
    assert_eq!(leave.is_off_at(Weekday::Wed, 15), true);

    leave.insert(Weekday::Thu, Parity::EvenWeek);
    // Thursday of ISO week 16 of 2015.
    assert_eq!(leave.is_off_at(Weekday::Thu, 16), true);
}

#[test]
fn return_false_when_day_match_but_not_parity() {
    let mut leave = OffDays::new();
    leave.insert(Weekday::Fri, Parity::EvenWeek);
    // Friday of ISO week 15 of 2015.
    assert_eq!(leave.is_off_at(Weekday::Fri, 15), false);

    leave.insert(Weekday::Sun, Parity::OddWeek);
    // Sunday of ISO week 16 of 2015.
    assert_eq!(leave.is_off_at(Weekday::Sun, 16), false);
}

#[test]
fn insert_replaces_and_reports_previous() {
    let mut leave = OffDays::new();
    assert!(leave.is_empty());
    assert_eq!(leave.insert(Weekday::Mon, Parity::OddWeek), None);
    assert_eq!(leave.insert(Weekday::Mon, Parity::EvenWeek), Some(Parity::OddWeek));
    assert!(!leave.is_empty());
    assert_eq!(leave.is_off_at(Weekday::Mon, 2), true);
    assert_eq!(leave.is_off_at(Weekday::Mon, 3), false);
}

#[test]
fn outside_hours_before_begin_and_after_end() {
    let begin = Some("8:00".to_string());
    let end = Some("19:30".to_string());
    assert!(is_outside_hours(&begin, &end, 7 * 3600));
    assert!(!is_outside_hours(&begin, &end, 12 * 3600));
    assert!(is_outside_hours(&begin, &end, 20 * 3600));
    // An absent or unparsable bound does not constrain its side.
    assert!(!is_outside_hours(&None, &None, 3 * 3600));
    assert!(!is_outside_hours(&Some("late".to_string()), &None, 3 * 3600));
}
