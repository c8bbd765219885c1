//! A flag that asks the running turn to stop.
use vstd::prelude::*;
use std::sync::atomic::{AtomicBool, Ordering};

verus! {

/// A cancellation flag shared between the user interface and the agent. Its value lives in an
/// atomic cell that any holder may change at any time, so no call states what it reads.
#[derive(Debug)]
pub struct CancelToken {
    cancelled: AtomicBool,
}

impl CancelToken {
    /// A flag that is not set.
    pub fn new() -> (t: CancelToken) {
        CancelToken { cancelled: AtomicBool::new(false) }
    }

    /// Sets the flag.
    pub fn cancel(&self) {
        self.cancelled.store(true, Ordering::SeqCst);
    }

    /// Reads the flag.
    pub fn is_cancelled(&self) -> (b: bool) {
        self.cancelled.load(Ordering::SeqCst)
    }

    /// Clears the flag.
    pub fn reset(&self) {
        self.cancelled.store(false, Ordering::SeqCst);
    }
}

} // verus!
