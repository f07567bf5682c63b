//! Cross-platform cooperative shutdown signal.
//!
//! [`ShutdownSignal`] allows a controlling thread (e.g. a service handler)
//! to request a graceful stop, while the main polling loop checks the flag
//! between iterations.  The flag is shared mutable state read and written
//! concurrently, so nothing can be promised of what a read returns; the
//! loop only consults it between poll cycles.

use vstd::prelude::*;

use std::sync::atomic::{AtomicBool, Ordering};
use std::sync::Arc;

verus! {

/// Cooperative shutdown signal backed by an [`AtomicBool`].
///
/// The signal is cheaply cloneable (shared via [`Arc`]) so that one clone
/// can live in a service control handler while another is polled inside the
/// main loop; every clone shares the one flag.
#[derive(Clone, Debug)]
pub struct ShutdownSignal {
    flag: Arc<AtomicBool>,
}

impl Default for ShutdownSignal {
    /// A fresh signal with shutdown not requested.
    fn default() -> Self {
        ShutdownSignal::new()
    }
}

impl ShutdownSignal {
    /// Create a new signal with shutdown **not** requested.
    pub fn new() -> (r: Self) {
        ShutdownSignal { flag: Arc::new(AtomicBool::new(false)) }
    }

    /// Request a graceful shutdown, on this signal and every clone of it.
    pub fn request_shutdown(&self) {
        self.flag.store(true, Ordering::Release);
    }

    /// Returns `true` when shutdown has been requested on this signal or
    /// any clone of it.
    pub fn is_shutdown_requested(&self) -> (r: bool) {
        self.flag.load(Ordering::Acquire)
    }
}

} // verus!
