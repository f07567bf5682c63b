//! Tests of the cooperative shutdown signal.

use automattermostatus::shutdown::ShutdownSignal;

#[test]
fn default_is_not_requested() {
    let sig = ShutdownSignal::new();
    assert!(!sig.is_shutdown_requested());
}

#[test]
fn requested_after_request_shutdown() {
    let sig = ShutdownSignal::new();
    sig.request_shutdown();
    assert!(sig.is_shutdown_requested());
}

#[test]
fn clone_shares_state() {
    let sig = ShutdownSignal::new();
    let sig2 = sig.clone();
    sig2.request_shutdown();
    assert!(sig.is_shutdown_requested());
}
