//! Tests of the status payload, its wire form, and the reconciliation
//! around the send.
//!
//! These tests run without network access: the exact wire form is checked
//! directly, sends are exercised through their skip paths (which touch no
//! network at all) and through the transport-failure path against a
//! loopback port nothing listens on.

use automattermostatus::http::HttpFailure;
use automattermostatus::session::LoggedSession;
use automattermostatus::state::{Location, State};
use automattermostatus::status::{MMSError, MMStatus};

fn unreachable_session() -> LoggedSession {
    LoggedSession::from_token(
        "http://127.0.0.1:1".to_string(),
        "token".to_string(),
        "user_id".to_string(),
    )
}

#[test]
fn send_required_json() {
    // The send cannot run here; check the exact JSON document it puts on
    // the wire for this status.
    let mmstatus = MMStatus::new("text".into(), "emoji".into());
    assert_eq!(mmstatus.to_json(), r#"{"text":"text","emoji":"emoji"}"#);
}

#[test]
fn to_json_is_exact() {
    let mut st = MMStatus::new("working \"home\"".into(), "house".into());
    assert_eq!(st.to_json(), "{\"text\":\"working \\\"home\\\"\",\"emoji\":\"house\"}");
    st.duration = Some("date_and_time".to_string());
    st.expires_at = Some("2021-10-11T19:30:00+02:00".to_string());
    assert_eq!(
        st.to_json(),
        "{\"text\":\"working \\\"home\\\"\",\"emoji\":\"house\",\"duration\":\"date_and_time\",\"expires_at\":\"2021-10-11T19:30:00+02:00\"}"
    );
}

#[test]
fn expiry_set_when_still_ahead() {
    // Evaluated at local time 13:00, an expiry of "14:00" is set.
    let mut st = MMStatus::new("text".into(), "emoji".into());
    st.expires_at_when(&Some("14:00".to_string()), 13 * 3600);
    assert!(st.expires_at.is_some());
    assert_eq!(st.duration.as_deref(), Some("date_and_time"));
}

#[test]
fn expiry_dropped_when_already_past() {
    // Evaluated at local time 15:00, an expiry of "14:00" is left unset.
    let mut st = MMStatus::new("text".into(), "emoji".into());
    st.expires_at_when(&Some("14:00".to_string()), 15 * 3600);
    assert!(st.expires_at.is_none());
    assert!(st.duration.is_none());
}

#[test]
fn expiry_dropped_when_unparsable() {
    let mut st = MMStatus::new("text".into(), "emoji".into());
    st.expires_at_when(&Some("half past".to_string()), 10 * 3600);
    assert!(st.expires_at.is_none());
    st.expires_at_when(&None, 10 * 3600);
    assert!(st.expires_at.is_none());
}

#[test]
fn send_transport_failure_is_propagated() {
    let mut session = unreachable_session();
    let mmstatus = MMStatus::new("text".into(), "emoji".into());
    let err = mmstatus.send(&mut session).err().expect("expected an error");
    assert!(matches!(err, MMSError::HTTPRequestError(HttpFailure::Transport(_))));
    // The static token is untouched by the failed send.
    assert_eq!(session.token, "token");
}

#[test]
fn update_status_skips_without_touching_the_network() {
    let mut session = unreachable_session();
    let mmstatus = MMStatus::new("text".into(), "emoji".into());
    let office = Location::Known("office".to_string());

    // An unknown candidate never triggers a send, whatever the record says.
    let mut state = State::new(None);
    let r = state.update_status(Location::Unknown, None, &mut session, 5000, 60).unwrap();
    assert!(r.is_none());
    assert_eq!(state.location, Location::Unknown);

    // An unchanged location seen recently enough is skipped too.
    let mut state = State { location: office.clone(), lastchange_timestamp: 1000 };
    let r = state
        .update_status(office.clone(), Some(&mmstatus), &mut session, 1200, 60)
        .unwrap();
    assert!(r.is_none());
    assert_eq!(state.location, office);
    assert_eq!(state.lastchange_timestamp, 1000);
}

#[test]
fn update_status_keeps_the_record_on_a_failed_push() {
    let mut session = unreachable_session();
    let mmstatus = MMStatus::new("text".into(), "emoji".into());

    let mut state = State::new(None);
    let err = state.update_status(
        Location::Known("office".to_string()),
        Some(&mmstatus),
        &mut session,
        1000,
        60,
    );
    assert!(err.is_err());
    // The failed push left the stored record untouched, so the next poll
    // cycle retries naturally.
    assert_eq!(state.location, Location::Unknown);
    assert_eq!(state.lastchange_timestamp, 0);
}

#[test]
fn followup_returns_a_first_success_untouched() {
    let mut session = unreachable_session();
    let mmstatus = MMStatus::new("text".into(), "emoji".into());
    let r = mmstatus.send_followup(Ok(200), &mut session);
    assert_eq!(r.unwrap(), 200);
    assert_eq!(session.token, "token");
}

#[test]
fn followup_propagates_other_rejections_at_once() {
    let mut session = unreachable_session();
    let mmstatus = MMStatus::new("text".into(), "emoji".into());
    let err = mmstatus
        .send_followup(Err(HttpFailure::Status(500)), &mut session)
        .err()
        .expect("expected an error");
    assert!(matches!(err, MMSError::HTTPRequestError(HttpFailure::Status(500))));
    let err = mmstatus
        .send_followup(Err(HttpFailure::Transport("down".to_string())), &mut session)
        .err()
        .expect("expected an error");
    match err {
        MMSError::HTTPRequestError(HttpFailure::Transport(m)) => assert_eq!(m, "down"),
        other => panic!("unexpected error: {:?}", other),
    }
}

#[test]
fn followup_resends_exactly_once_after_an_expired_session() {
    // A 401 on a static-token session: the no-op re-login succeeds and the
    // one resend runs against the unreachable server, whose failure is
    // handed back; the token stays.
    let mut session = unreachable_session();
    let mmstatus = MMStatus::new("text".into(), "emoji".into());
    let err = mmstatus
        .send_followup(Err(HttpFailure::Status(401)), &mut session)
        .err()
        .expect("expected an error");
    assert!(matches!(err, MMSError::HTTPRequestError(HttpFailure::Transport(_))));
    assert_eq!(session.token, "token");
}

#[test]
fn apply_expiry_installs_the_instant() {
    let mut st = MMStatus::new("text".into(), "emoji".into());
    st.apply_expiry(None);
    assert!(st.expires_at.is_none() && st.duration.is_none());
    st.apply_expiry(Some("2021-10-11T14:00:00+02:00".to_string()));
    assert_eq!(st.expires_at.as_deref(), Some("2021-10-11T14:00:00+02:00"));
    assert_eq!(st.duration.as_deref(), Some("date_and_time"));
}

#[test]
fn presence_body_is_exact() {
    assert_eq!(
        automattermostatus::status::build_presence_body("user_id", "dnd"),
        r#"{"user_id":"user_id","status":"dnd"}"#
    );
}
