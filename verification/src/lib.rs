//! Single-fire signal pairs for structured-concurrency scopes.
//!
//! A *cancel* notification travels from a parent scope down to its children,
//! and a *done* notification travels from a child back up to its parent.  Each
//! channel carries at most one notification, ever, and has exactly one
//! producer and one consumer capability.  A registry keyed by identity tokens
//! lets one parent hold the counterpart endpoints of many short-lived
//! children; an endpoint's entry is removed exactly once, when the endpoint
//! is released.

use vstd::prelude::*;

pub mod channel;
pub mod protocol;
pub mod registry;
pub mod signals;

verus! {

/// A producer capability: consumed exactly once, either by sending the
/// notification or by being destroyed (which closes the channel).
pub trait SignalSender {

}

/// A consumer capability: awaitable, and safe to poll again after it has
/// resolved (re-polls resolve immediately).
pub trait SignalReceiver {

}

/// A producer capability that can also detach itself: `forget` consumes the
/// sender and tells the consumer to stop listening on this channel without
/// reading the detachment as a cancellation.
pub trait ForgettableSignalSender: SignalSender {
    fn forget(self);
}

} // verus!
