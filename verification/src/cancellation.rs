//! The flag by which the user stops a running agent: set from one command, read by the
//! agent's loop between its steps.

use vstd::prelude::*;
use std::sync::atomic::{AtomicBool, Ordering};

verus! {

/// Whether the running generation was asked to stop. Shared between the command that
/// stops it and the loop that runs it, so every read may see another value.
pub struct CancellationState {
    pub is_cancelled: AtomicBool,
}

impl CancellationState {
    /// A flag that is not set.
    pub fn new() -> (r: Self) {
        CancellationState { is_cancelled: AtomicBool::new(false) }
    }

    /// Asks the running generation to stop.
    pub fn cancel(&self) {
        self.is_cancelled.store(true, Ordering::SeqCst);
    }

    /// Clears the request before a new generation starts.
    pub fn reset(&self) {
        self.is_cancelled.store(false, Ordering::SeqCst);
    }

    /// Whether a stop was asked for since the last reset. Another thread may change the
    /// flag at any time, so nothing is promised of the value read.
    pub fn is_cancelled(&self) -> (r: bool) {
        self.is_cancelled.load(Ordering::SeqCst)
    }
}

impl Default for CancellationState {
    fn default() -> (r: Self) {
        CancellationState::new()
    }
}

} // verus!
