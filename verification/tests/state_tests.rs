//! Tests of the location store codec and the reconciliation decision.

use automattermostatus::state::{Cache, Location, State, MAX_SECS_BEFORE_FORCE_UPDATE};

#[test]
fn remember_state() {
    let cache = Cache::new("automattermostatus.state".to_string());
    assert_eq!(cache.path(), "automattermostatus.state");

    let mut state = State::new(None);
    assert_eq!(state.location, Location::Unknown);
    let record = state.set_location(Location::Known("abcd".to_string()), 10);
    assert_eq!(state.location, Location::Known("abcd".to_string()));

    let mut state = State::new(Some(record.as_str()));
    assert_eq!(state.location, Location::Known("abcd".to_string()));
    assert_eq!(state.lastchange_timestamp, 10);
    let record = state.set_location(Location::Known("work".to_string()), 20);
    assert_eq!(state.location, Location::Known("work".to_string()));

    let state = State::new(Some(record.as_str()));
    assert_eq!(state.location, Location::Known("work".to_string()));
    assert_eq!(state.lastchange_timestamp, 20);
}

#[test]
fn encode_is_readable_text() {
    let mut state = State::new(None);
    let record = state.set_location(Location::Known("office".to_string()), 1234);
    assert_eq!(record, "1234\nkoffice");
    let record = state.set_location(Location::Unknown, 5);
    assert_eq!(record, "5\nu");
}

#[test]
fn round_trip_keeps_every_record() {
    let cases: Vec<(Location, i64)> = vec![
        (Location::Unknown, 0),
        (Location::Known("".to_string()), 0),
        (Location::Known("home".to_string()), 1),
        (Location::Known("with\nnewline".to_string()), 1700000000),
        (Location::Known("k:u\nweird".to_string()), i64::MAX),
    ];
    for (loc, ts) in cases {
        let state = State { location: loc.clone(), lastchange_timestamp: ts };
        let loaded = State::new(Some(state.encode().as_str()));
        assert_eq!(loaded.location, loc);
        assert_eq!(loaded.lastchange_timestamp, ts);
    }
}

#[test]
fn corrupt_record_yields_default() {
    for bad in ["", "nonsense", "12", "12\n", "12\nx", "12\nuu", "-3\nu", "99999999999999999999\nu"] {
        let state = State::new(Some(bad));
        assert_eq!(state.location, Location::Unknown);
        assert_eq!(state.lastchange_timestamp, 0);
    }
}

#[test]
fn fresh_state_missing_then_known_candidate_pushes() {
    // A missing state file loads as the default record, and a first observed
    // known location always pushes: it differs from the stored one.
    let state = State::new(None);
    assert_eq!(state.location, Location::Unknown);
    assert_eq!(state.lastchange_timestamp, 0);
    assert!(state.should_push(&Location::Known("office".to_string()), 50, 60));
}

#[test]
fn unchanged_location_very_small_elapsed_pushes() {
    // elapsed 50 <= 2 * 60: the re-send guard pushes again.
    let state = State { location: Location::Known("office".to_string()), lastchange_timestamp: 1000 };
    assert!(state.should_push(&Location::Known("office".to_string()), 1050, 60));
}

#[test]
fn unchanged_location_beyond_window_pushes() {
    // elapsed 3700 > 3600: the force-resync branch pushes.
    assert_eq!(MAX_SECS_BEFORE_FORCE_UPDATE, 3600);
    let state = State { location: Location::Known("office".to_string()), lastchange_timestamp: 1000 };
    assert!(state.should_push(&Location::Known("office".to_string()), 4700, 60));
}

#[test]
fn unchanged_location_recent_enough_skips() {
    // elapsed 200, between 2 * 60 and 3600: skip.
    let state = State { location: Location::Known("office".to_string()), lastchange_timestamp: 1000 };
    assert!(!state.should_push(&Location::Known("office".to_string()), 1200, 60));
}

#[test]
fn unknown_candidate_never_pushes() {
    let stored = [
        State { location: Location::Unknown, lastchange_timestamp: 0 },
        State { location: Location::Known("office".to_string()), lastchange_timestamp: 1000 },
    ];
    for state in stored {
        for now in [1000, 1050, 1200, 4700, 123456] {
            assert!(!state.should_push(&Location::Unknown, now, 60));
        }
    }
}

#[test]
fn window_boundaries_are_exact() {
    let state = State { location: Location::Known("x".to_string()), lastchange_timestamp: 0 };
    // elapsed exactly 2 * delay: not strictly above, so push.
    assert!(state.should_push(&Location::Known("x".to_string()), 120, 60));
    // one past: skip.
    assert!(!state.should_push(&Location::Known("x".to_string()), 121, 60));
    // elapsed exactly at the force-update window: still skip.
    assert!(!state.should_push(&Location::Known("x".to_string()), 3600, 60));
    // one past the window: push.
    assert!(state.should_push(&Location::Known("x".to_string()), 3601, 60));
}

#[test]
fn changed_location_always_pushes() {
    let state = State { location: Location::Known("office".to_string()), lastchange_timestamp: 1000 };
    assert!(state.should_push(&Location::Known("home".to_string()), 1200, 60));
}
