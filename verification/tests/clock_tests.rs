//! Tests that the clock readings stay in their stated ranges.

use automattermostatus::clock::{local_seconds_of_day, today_weekday_and_iso_week};

#[test]
fn seconds_of_day_stay_below_a_day() {
    for _ in 0..100 {
        assert!(local_seconds_of_day() < 86400);
    }
}

#[test]
fn weekday_and_week_stay_in_range() {
    let (weekday, week) = today_weekday_and_iso_week();
    assert!(weekday < 7);
    assert!((1..=53).contains(&week));
}
