//! The signal that ends a session: raised once, seen by both pumps.

use vstd::prelude::*;

verus! {

/// A cancellation signal that can be raised and never lowered.
#[derive(Clone, Copy, PartialEq, Eq, Debug, Structural)]
pub struct ShutdownCoordinator {
    triggered: bool,
}

impl View for ShutdownCoordinator {
    type V = bool;

    /// Whether the signal has been raised.
    closed spec fn view(&self) -> bool {
        self.triggered
    }
}

impl ShutdownCoordinator {
    /// The signal after it has been raised.
    pub closed spec fn raised(self) -> ShutdownCoordinator {
        ShutdownCoordinator { triggered: true }
    }

    /// A signal that has not been raised.
    pub fn new() -> (signal: ShutdownCoordinator)
        ensures
            !signal@,
    {
        ShutdownCoordinator { triggered: false }
    }

    /// Raises the signal. On a raised signal this changes nothing.
    pub fn trigger(&mut self)
        ensures
            *final(self) == old(self).raised(),
            final(self)@,
    {
        self.triggered = true;
    }

    /// Whether the signal has been raised. Never waits.
    pub fn is_triggered(&self) -> (triggered: bool)
        ensures
            triggered == self@,
    {
        self.triggered
    }
}

/// Raising is idempotent: a raised signal is raised, and raising it again
/// gives the same signal.
pub proof fn lemma_trigger_idempotent(signal: ShutdownCoordinator)
    ensures
        signal.raised()@,
        signal.raised().raised() == signal.raised(),
        signal@ ==> signal.raised() == signal,
{
}

} // verus!
