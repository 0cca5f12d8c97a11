//! The reconnect arbiter: a single shared, non-blocking exclusion primitive
//! guarding "a connection-establishing action is in flight".
//!
//! Acquisition never waits: if the token is already held, `try_acquire`
//! reports `Busy` at once and the caller drops its trigger rather than
//! queueing it. The modem service itself serializes connection attempts, so
//! overlapping corrective actions are wasteful; supervision must stay live,
//! so contention is resolved by skipping, never by blocking.

use vstd::prelude::*;

verus! {

/// Outcome of a non-blocking acquisition attempt.
#[derive(Clone, Copy, Debug, PartialEq, Eq, Structural)]
pub enum AcquireOutcome {
    /// The token was free and is now held by the caller.
    Acquired,
    /// The token is held elsewhere; the caller must skip its action.
    Busy,
}

/// The shared exclusion token. At most one holder at any instant; created
/// once at process startup, available initially.
pub struct Arbiter {
    held: bool,
}

impl Arbiter {
    /// Whether the token is currently held.
    pub closed spec fn is_held(&self) -> bool {
        self.held
    }

    /// A fresh arbiter; the token starts out available.
    pub fn new() -> (a: Arbiter)
        ensures
            !a.is_held(),
    {
        Arbiter { held: false }
    }

    /// Whether the token is held right now, for callers that must check the
    /// monitors' protocol before stepping them.
    pub fn currently_held(&self) -> (r: bool)
        ensures
            r == self.is_held(),
    {
        self.held
    }

    /// Attempts to take the token without blocking. Succeeds exactly when
    /// the token was available; afterwards the token is held either way.
    pub fn try_acquire(&mut self) -> (r: AcquireOutcome)
        ensures
            final(self).is_held(),
            r == AcquireOutcome::Acquired <==> !old(self).is_held(),
            r == AcquireOutcome::Busy <==> old(self).is_held(),
    {
        if self.held {
            AcquireOutcome::Busy
        } else {
            self.held = true;
            AcquireOutcome::Acquired
        }
    }

    /// Returns the token; it is available again for the next attempt.
    pub fn release(&mut self)
        ensures
            !final(self).is_held(),
    {
        self.held = false;
    }
}

} // verus!
