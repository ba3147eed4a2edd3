//! The cancel protocol's state machine, as pure data.
//!
//! A poll of a signal channel observes one of three things: nothing yet, the
//! producer fired, or the producer went away without firing.  The two-level
//! cancel receiver combines one such observation of its root channel and one
//! of its leaf channel into a phase transition; [`spec_cancel_step`] is the
//! whole transition function, and [`cancel_step`] executes it.

use vstd::prelude::*;

verus! {

/// What one poll of a unit signal channel observed: no resolution yet, the
/// producer sent the notification, or the producer was destroyed without
/// sending.
#[derive(Clone, Copy, PartialEq, Eq, Structural, Debug)]
pub enum ChannelStatus {
    Pending,
    Fired,
    Closed,
}

/// What one poll of a leaf cancel channel observed.  The leaf channel carries
/// at most a detach notice: a received message means "stop listening here,
/// this is not a cancellation", while a close means the parent link went away
/// without detaching, which must read as cancellation.
#[derive(Clone, Copy, PartialEq, Eq, Structural, Debug)]
pub enum LeafStatus {
    Pending,
    Detached,
    Closed,
}

/// The phase of a two-level cancel receiver: listening on both channels,
/// listening on the root alone (the leaf was detached), or terminally
/// cancelled.
#[derive(Clone, Copy, PartialEq, Eq, Structural, Debug)]
pub enum CancelPhase {
    Listening,
    RootOnly,
    Cancelled,
}

/// One transition of the two-level cancel receiver: from the current phase
/// and the observations of the root and leaf channels to the next phase and
/// whether this poll reports "cancel requested".
///
/// The root is decisive: any resolution of it (fired or closed) cancels,
/// whatever the leaf did.  While listening on both channels, a closed leaf
/// cancels and a detached leaf narrows the receiver to the root alone.  The
/// cancelled phase is terminal and idempotent.
pub open spec fn spec_cancel_step(
    phase: CancelPhase,
    root: ChannelStatus,
    leaf: LeafStatus,
) -> (CancelPhase, bool) {
    match phase {
        CancelPhase::Cancelled => (CancelPhase::Cancelled, true),
        CancelPhase::RootOnly => {
            if root is Pending {
                (CancelPhase::RootOnly, false)
            } else {
                (CancelPhase::Cancelled, true)
            }
        },
        CancelPhase::Listening => {
            if !(root is Pending) {
                (CancelPhase::Cancelled, true)
            } else {
                match leaf {
                    LeafStatus::Pending => (CancelPhase::Listening, false),
                    LeafStatus::Detached => (CancelPhase::RootOnly, false),
                    LeafStatus::Closed => (CancelPhase::Cancelled, true),
                }
            }
        },
    }
}

/// Executes [`spec_cancel_step`].
pub fn cancel_step(phase: CancelPhase, root: ChannelStatus, leaf: LeafStatus) -> (r: (
    CancelPhase,
    bool,
))
    ensures
        r == spec_cancel_step(phase, root, leaf),
{
    match phase {
        CancelPhase::Cancelled => (CancelPhase::Cancelled, true),
        CancelPhase::RootOnly => {
            match root {
                ChannelStatus::Pending => (CancelPhase::RootOnly, false),
                _ => (CancelPhase::Cancelled, true),
            }
        },
        CancelPhase::Listening => {
            match root {
                ChannelStatus::Pending => {
                    match leaf {
                        LeafStatus::Pending => (CancelPhase::Listening, false),
                        LeafStatus::Detached => (CancelPhase::RootOnly, false),
                        LeafStatus::Closed => (CancelPhase::Cancelled, true),
                    }
                },
                _ => (CancelPhase::Cancelled, true),
            }
        },
    }
}

/// Whether one poll resolves a single plain signal channel: a consumer that
/// has already resolved resolves again without blocking, and otherwise any
/// resolution of the channel (fired or closed) resolves it.
pub open spec fn spec_await_step(resolved: bool, observed: ChannelStatus) -> bool {
    resolved || !(observed is Pending)
}

/// A plain signal consumer resolves when its producer is destroyed without
/// sending, exactly as when the producer fires; and once it has resolved,
/// every later poll resolves again without blocking, whatever the channel
/// shows.
pub proof fn lemma_plain_resolution()
    ensures
        spec_await_step(false, ChannelStatus::Closed),
        spec_await_step(false, ChannelStatus::Fired),
        forall|observed: ChannelStatus| spec_await_step(true, observed),
{
}

/// Destroying the leaf producer without detaching cancels the receiver, with
/// the very transition a root resolution would make.
pub proof fn lemma_implicit_close_cancels()
    ensures
        spec_cancel_step(CancelPhase::Listening, ChannelStatus::Pending, LeafStatus::Closed) == (
        CancelPhase::Cancelled,
        true,
        ),
        forall|root: ChannelStatus, leaf: LeafStatus|
            !(root is Pending) ==> #[trigger] spec_cancel_step(CancelPhase::Listening, root, leaf)
                == spec_cancel_step(
                CancelPhase::Listening,
                ChannelStatus::Pending,
                LeafStatus::Closed,
            ),
{
}

/// Detaching the leaf does not resolve the receiver: it narrows it to the
/// root alone, where it stays pending until the root resolves and is
/// cancelled exactly then.
pub proof fn lemma_detach_defers_to_root()
    ensures
        spec_cancel_step(CancelPhase::Listening, ChannelStatus::Pending, LeafStatus::Detached) == (
        CancelPhase::RootOnly,
        false,
        ),
        forall|leaf: LeafStatus|
            #[trigger] spec_cancel_step(CancelPhase::RootOnly, ChannelStatus::Pending, leaf) == (
            CancelPhase::RootOnly,
            false,
            ),
        forall|root: ChannelStatus, leaf: LeafStatus|
            !(root is Pending) ==> #[trigger] spec_cancel_step(CancelPhase::RootOnly, root, leaf)
                == (CancelPhase::Cancelled, true),
{
}

/// A root resolution cancels a receiver that is still listening on both
/// channels, whatever the leaf's fate.
pub proof fn lemma_root_overrides_leaf()
    ensures
        forall|root: ChannelStatus, leaf: LeafStatus|
            !(root is Pending) ==> #[trigger] spec_cancel_step(CancelPhase::Listening, root, leaf)
                == (CancelPhase::Cancelled, true),
{
}

/// Cancellation is terminal: every step out of the cancelled phase stays
/// cancelled and reports "cancel requested" again.
pub proof fn lemma_cancelled_is_terminal()
    ensures
        forall|root: ChannelStatus, leaf: LeafStatus|
            #[trigger] spec_cancel_step(CancelPhase::Cancelled, root, leaf) == (
            CancelPhase::Cancelled,
            true,
            ),
{
}

} // verus!
