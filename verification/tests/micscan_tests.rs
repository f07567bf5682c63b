//! Tests of the microphone-usage parsing and decision.

use automattermostatus::micscan::{pid_from_status_file, DndAction, MicUsage};

#[test]
fn extract_expected_pid() {
    let res = r#"
state: RUNNING
owner_pid   : 3700
trigger_time: 1101.147470817
tstamp      : 1104.422995946
delay       : 144
avail       : 8048
avail_max   : 8048
-----
hw_ptr      : 157296
appl_ptr    : 157440
"#;

    assert_eq!(pid_from_status_file(res).unwrap(), 3700);
}

#[test]
fn no_pid_line_is_an_error() {
    assert!(pid_from_status_file("state: RUNNING\ndelay : 144").is_err());
}

#[test]
fn dnd_follows_watched_mic_use() {
    let watched = vec!["zoom".to_string(), "teams".to_string()];
    let mut usage = MicUsage::new();
    assert!(!usage.used);

    // Nothing uses the mic and nothing did: keep quiet.
    let action = usage.update_dnd_status(&vec!["player".to_string()], &watched);
    assert_eq!(action, DndAction::Keep);
    assert!(!usage.used);

    // A watched application takes the mic: move to do-not-disturb.
    let action = usage.update_dnd_status(&vec!["player".to_string(), "zoom".to_string()], &watched);
    assert_eq!(action, DndAction::SetDnd);
    assert!(usage.used);

    // It keeps the mic: stay there.
    let action = usage.update_dnd_status(&vec!["zoom".to_string()], &watched);
    assert_eq!(action, DndAction::SetDnd);
    assert!(usage.used);

    // It releases the mic: move back to online, exactly once.
    let action = usage.update_dnd_status(&vec!["player".to_string()], &watched);
    assert_eq!(action, DndAction::SetOnline);
    assert!(!usage.used);
    let action = usage.update_dnd_status(&vec![], &watched);
    assert_eq!(action, DndAction::Keep);
    assert!(!usage.used);
}
