//! Tests of the secret-redacting newtype.

use automattermostatus::secret::{enable_expose, ExposeSecrets, Secret};

#[test]
fn debug_redacts_by_default() {
    let flags = ExposeSecrets::new();
    let s = Secret::new("hunter2".into());
    assert_eq!(s.debug_string(&flags), "Secret(***)");
}

#[test]
fn display_redacts_by_default() {
    let flags = ExposeSecrets::new();
    let s = Secret::new("hunter2".into());
    assert_eq!(s.display_string(&flags), "***");
}

#[test]
fn debug_shows_value_when_exposed() {
    let mut flags = ExposeSecrets::new();
    enable_expose(&mut flags);
    let s = Secret::new("hunter2".into());
    assert_eq!(s.debug_string(&flags), "Secret(\"hunter2\")");
}

#[test]
fn display_shows_value_when_exposed() {
    let mut flags = ExposeSecrets::new();
    enable_expose(&mut flags);
    let s = Secret::new("hunter2".into());
    assert_eq!(s.display_string(&flags), "hunter2");
}

#[test]
fn expose_always_returns_inner_value() {
    let s = Secret::new("hunter2".into());
    assert_eq!(s.expose(), "hunter2");
}

#[test]
fn from_str_works() {
    let s: Secret = "my_token".parse().unwrap();
    assert_eq!(s.expose(), "my_token");
}
