//! A flag that any thread can raise to ask every loop of the client to stop.
use std::sync::atomic::{AtomicBool, Ordering};
use std::sync::Arc;
use vstd::prelude::*;

verus! {

/// A shared shutdown request. Clones share the same flag. What a read of
/// the flag gives depends on the other threads, so no contract states it.
#[derive(Clone)]
pub struct ShutdownSignal {
    inner: Arc<AtomicBool>,
}

impl ShutdownSignal {
    /// A signal with no shutdown requested yet.
    pub fn new() -> Self {
        ShutdownSignal { inner: Arc::new(AtomicBool::new(false)) }
    }

    /// Asks every holder of the signal to stop.
    pub fn request_shutdown(&self) {
        let flag: &AtomicBool = &self.inner;
        flag.store(true, Ordering::Release);
    }

    /// Whether a shutdown has been requested.
    pub fn is_shutdown(&self) -> bool {
        let flag: &AtomicBool = &self.inner;
        flag.load(Ordering::Acquire)
    }
}

} // verus!
