//! Tests of the session lifecycle.
//!
//! These tests run without network access, so the login and re-login
//! exchanges are checked at the wire-format level and through their failure
//! paths; the one reachable address used below is a loopback port nothing
//! listens on.

use automattermostatus::http::HttpResponseParts;
use automattermostatus::session::{build_login_body, AuthError, LoggedSession, Session};

#[test]
fn login_with_success() {
    // The exchange itself cannot run here; check the exact request body a
    // successful login sends for these credentials.
    let mut session = Session::new("https://mattermost.example.com");
    let session = session.with_credentials("username", "passwordtext");
    assert_eq!(session.base_uri, "https://mattermost.example.com");
    assert_eq!(
        build_login_body(&session.user, &session.password),
        r#"{"login_id":"username","password":"passwordtext"}"#
    );
}

#[test]
fn login_body_escapes_the_credentials() {
    assert_eq!(
        build_login_body("a\"b", "p\\w"),
        r#"{"login_id":"a\"b","password":"p\\w"}"#
    );
}

#[test]
fn return_token() {
    let mut session = Session::new("https://mattermost.example.com");
    let session = session.with_token("xyzxyz");
    assert_eq!(session.base_uri, "https://mattermost.example.com");
    assert_eq!(session.token().unwrap(), "xyzxyz");
}

#[test]
fn credentials_session_has_no_token_before_login() {
    let mut session = Session::new("https://mattermost.example.com");
    let session = session.with_credentials("username", "passwordtext");
    assert!(session.token().is_err());
}

#[test]
fn login_transport_failure_is_reported() {
    // Nothing answers on this loopback port.
    let mut session = Session::new("http://127.0.0.1:1");
    let mut session = session.with_credentials("username", "passwordtext");
    let err = session.login().err().expect("expected an error");
    assert!(matches!(err, AuthError::Transport(_)));
}

#[test]
fn token_login_transport_failure_is_reported() {
    let mut session = Session::new("http://127.0.0.1:1");
    let mut session = session.with_token("xyzxyz");
    let err = session.login().err().expect("expected an error");
    assert!(matches!(err, AuthError::Transport(_)));
}

#[test]
fn relogin_without_credentials_is_a_noop() {
    // A static-token session cannot re-derive its token: re-login succeeds
    // without touching anything, the token included — even with an
    // unreachable server, since no exchange happens at all.
    let mut logged = LoggedSession::from_token(
        "http://127.0.0.1:1".to_string(),
        "token".to_string(),
        "user_id".to_string(),
    );
    assert!(logged.relogin().is_ok());
    assert_eq!(logged.token, "token");
    assert_eq!(logged.user_id, "user_id");
}

#[test]
fn login_answer_yields_token_and_user_id() {
    // The settled outcome of a successful exchange: the `Token` header
    // becomes the bearer token, the body's id the user id, and the
    // credentials are kept for re-login.
    let mut session = Session::new("https://mattermost.example.com");
    let session = session.with_credentials("username", "passwordtext");
    let parts = HttpResponseParts {
        status: 200,
        header: Some("xyzxyz".to_string()),
        body: r#"{"id":"user_id"}"#.to_string(),
    };
    let logged = session.login_outcome(parts).unwrap();
    assert_eq!(logged.token, "xyzxyz");
    assert_eq!(logged.user_id, "user_id");
    assert_eq!(logged.base_uri, "https://mattermost.example.com");
    assert_eq!(logged.user.as_deref(), Some("username"));
    assert_eq!(logged.password.as_deref(), Some("passwordtext"));
}

#[test]
fn login_answer_without_token_header_is_rejected() {
    let mut session = Session::new("https://mattermost.example.com");
    let session = session.with_credentials("username", "passwordtext");
    let parts = HttpResponseParts {
        status: 200,
        header: None,
        body: r#"{"id":"user_id"}"#.to_string(),
    };
    let err = session.login_outcome(parts).err().expect("expected an error");
    assert!(matches!(err, AuthError::Rejected(_)));
}

#[test]
fn login_answer_without_id_is_rejected() {
    let mut session = Session::new("https://mattermost.example.com");
    let session = session.with_credentials("username", "passwordtext");
    let parts = HttpResponseParts {
        status: 200,
        header: Some("xyzxyz".to_string()),
        body: r#"{"name":"nope"}"#.to_string(),
    };
    let err = session.login_outcome(parts).err().expect("expected an error");
    assert!(matches!(err, AuthError::Rejected(_)));
}

#[test]
fn identity_answer_yields_user_id() {
    let mut session = Session::new("https://mattermost.example.com");
    let session = session.with_token("sdqgserdfmkjqBXHZFH:qgjr");
    let logged = session.login_outcome(r#"{"id":"user_id"}"#).unwrap();
    assert_eq!(logged.token, "sdqgserdfmkjqBXHZFH:qgjr");
    assert_eq!(logged.user_id, "user_id");
    assert!(session.login_outcome("not json").is_err());
}

#[test]
fn relogin_answer_replaces_the_token_as_a_whole() {
    let mut logged = LoggedSession::from_token(
        "https://mattermost.example.com".to_string(),
        "stale".to_string(),
        "user_id".to_string(),
    );
    let parts = HttpResponseParts { status: 200, header: Some("fresh".to_string()), body: String::new() };
    assert!(logged.relogin_outcome(parts).is_ok());
    assert_eq!(logged.token, "fresh");
    assert_eq!(logged.user_id, "user_id");

    // An answer without the header rejects and changes nothing.
    let parts = HttpResponseParts { status: 200, header: None, body: String::new() };
    let err = logged.relogin_outcome(parts).err().expect("expected an error");
    assert!(matches!(err, AuthError::Rejected(_)));
    assert_eq!(logged.token, "fresh");
}
