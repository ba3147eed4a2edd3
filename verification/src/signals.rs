//! The signal endpoints: cancel pairs, done pairs, and their two-level
//! signal-forwarding variants.
//!
//! A *cancel* pair lets a parent scope tell a child to stop: the parent keeps
//! the producer half in a registry, the child holds the consumer.  A *done*
//! pair flows the other way: the child holds the producer and signals
//! completion by destroying it, while the consumer half waits in the parent's
//! registry.  The two-level variants add a root channel so a scope can be
//! cancelled (or report completion) past its immediate parent, and the leaf
//! cancel channel carries a [`ForgetMessage`] so a parent can detach a child
//! without that detachment reading as cancellation.

use vstd::prelude::*;
use core::task::Context;
use futures::channel::oneshot;

use crate::ForgettableSignalSender;
use crate::SignalReceiver;
use crate::SignalSender;
use crate::channel::PollOutcome;
use crate::channel::oneshot_pair;
use crate::channel::oneshot_poll;
use crate::channel::oneshot_send;
use crate::protocol::CancelPhase;
use crate::protocol::ChannelStatus;
use crate::protocol::LeafStatus;
use crate::protocol::cancel_step;
use crate::protocol::spec_cancel_step;
use crate::registry::SignalRegistry;

verus! {

/// The message a leaf cancel producer sends to detach itself: the receiver
/// must stop listening on the leaf channel without reading the detachment as
/// a cancellation.
pub struct ForgetMessage {}

impl ForgetMessage {
    /// A fresh detach notice.
    pub fn new() -> (message: Self)
        ensures
            message == (ForgetMessage {  }),
    {
        ForgetMessage {  }
    }
}

/// The child half of a plain cancel pair: it resolves when the counterpart
/// producer fires or is destroyed, treating both as "cancel requested".
pub struct RemoteCancelReceiver {
    receiver: oneshot::Receiver<()>,
    token: u64,
    resolved: bool,
}

impl RemoteCancelReceiver {
    /// The identity token under which the counterpart producer is registered.
    pub closed spec fn token_spec(&self) -> u64 {
        self.token
    }

    /// Whether some poll already reported "cancel requested".
    pub closed spec fn has_resolved(&self) -> bool {
        self.resolved
    }

    /// The identity token under which the counterpart producer is registered.
    pub fn token(&self) -> (token: u64)
        ensures
            token == self.token_spec(),
    {
        self.token
    }

    /// One poll: reports "cancel requested" when the counterpart producer has
    /// fired or was destroyed without firing, and resolves again without
    /// blocking on every poll after the first resolution.
    pub fn poll_signal(&mut self, cx: &mut Context<'_>) -> (ready: bool)
        ensures
            final(self).token_spec() == old(self).token_spec(),
            ready == final(self).has_resolved(),
            old(self).has_resolved() ==> ready,
    {
        if self.resolved {
            return true;
        }
        match oneshot_poll(&mut self.receiver, cx) {
            PollOutcome::Pending => false,
            PollOutcome::Delivered(_) => {
                self.resolved = true;
                true
            },
            PollOutcome::Closed => {
                self.resolved = true;
                true
            },
        }
    }

    /// Destroys the receiver and removes its entry from the registry of
    /// counterpart producers, whether or not cancellation was ever observed.
    /// The removed producer, if its entry was still live, is handed back so
    /// the caller decides its fate (destroying it is the common one).
    pub fn release(self, registry: &mut SignalRegistry<oneshot::Sender<()>>) -> (removed: Option<
        oneshot::Sender<()>,
    >)
        ensures
            removed is Some <==> old(registry).contains_token(self.token_spec()),
            !final(registry).contains_token(self.token_spec()),
            forall|k: u64|
                k != self.token_spec() ==> (#[trigger] final(registry).contains_token(k) <==> old(
                    registry,
                ).contains_token(k)),
            final(registry).issued() == old(registry).issued(),
            old(registry).contains_token(self.token_spec()) ==> final(registry).live_count() == old(
                registry,
            ).live_count() - 1,
    {
        registry.deregister(self.token)
    }
}

impl SignalReceiver for RemoteCancelReceiver {

}

/// The child half of a plain done pair: it signals completion by being
/// destroyed, which closes the channel whose consumer half waits in the
/// parent's registry.
pub struct RemoteDoneSender {
    sender: oneshot::Sender<()>,
    token: u64,
}

impl RemoteDoneSender {
    /// The identity token under which the counterpart consumer is registered.
    pub closed spec fn token_spec(&self) -> u64 {
        self.token
    }

    /// The identity token under which the counterpart consumer is registered.
    pub fn token(&self) -> (token: u64)
        ensures
            token == self.token_spec(),
    {
        self.token
    }

    /// Destroys the producer — closing the channel, which the parent reads as
    /// "done" — and removes the counterpart consumer's entry from the
    /// registry.  If the parent had already collected that consumer, nothing
    /// comes back.
    pub fn complete(self, registry: &mut SignalRegistry<oneshot::Receiver<()>>) -> (counterpart:
        Option<oneshot::Receiver<()>>)
        ensures
            counterpart is Some <==> old(registry).contains_token(self.token_spec()),
            !final(registry).contains_token(self.token_spec()),
            forall|k: u64|
                k != self.token_spec() ==> (#[trigger] final(registry).contains_token(k) <==> old(
                    registry,
                ).contains_token(k)),
            final(registry).issued() == old(registry).issued(),
            old(registry).contains_token(self.token_spec()) ==> final(registry).live_count() == old(
                registry,
            ).live_count() - 1,
    {
        registry.deregister(self.token)
    }
}

impl SignalSender for RemoteDoneSender {

}

/// The parent half of a two-level cancel pair's leaf channel.  Destroying it
/// cancels the child (a closed leaf reads as "cancel requested"); calling
/// [`ForgettableSignalSender::forget`] instead detaches the child without
/// cancelling it.  The two are mutually exclusive terminal actions.
pub struct RemoteCancelSenderWithSignal {
    sender: oneshot::Sender<ForgetMessage>,
}

impl SignalSender for RemoteCancelSenderWithSignal {

}

impl ForgettableSignalSender for RemoteCancelSenderWithSignal {
    fn forget(self) {
        let RemoteCancelSenderWithSignal { sender } = self;
        let _ = oneshot_send(sender, ForgetMessage::new());
    }
}

/// The child half of a two-level cancel pair: it listens on a root channel
/// (the ultimate ancestor's cancel signal, whose producer sits in a registry)
/// and, until detached, on a leaf channel from its immediate parent.
pub struct RemoteCancelReceiverWithSignal {
    receiver_root: oneshot::Receiver<()>,
    receiver_leaf: Option<oneshot::Receiver<ForgetMessage>>,
    token: u64,
    cancelled: bool,
}

impl RemoteCancelReceiverWithSignal {
    /// The identity token under which the root producer is registered.
    pub closed spec fn token_spec(&self) -> u64 {
        self.token
    }

    /// Which phase the receiver is in: listening on both channels, on the
    /// root alone, or terminally cancelled.
    pub closed spec fn phase(&self) -> CancelPhase {
        if self.cancelled {
            CancelPhase::Cancelled
        } else if self.receiver_leaf is Some {
            CancelPhase::Listening
        } else {
            CancelPhase::RootOnly
        }
    }

    /// The identity token under which the root producer is registered.
    pub fn token(&self) -> (token: u64)
        ensures
            token == self.token_spec(),
    {
        self.token
    }

    /// One poll of the two-level receiver: the root channel is checked first
    /// and any resolution of it cancels; otherwise a closed leaf cancels, a
    /// detach notice narrows the receiver to the root alone without resolving
    /// it, and a pending leaf leaves everything as it was.  The transition
    /// taken is exactly one step of [`spec_cancel_step`], and once cancelled
    /// every poll resolves again without blocking.
    pub fn poll_signal(&mut self, cx: &mut Context<'_>) -> (ready: bool)
        ensures
            final(self).token_spec() == old(self).token_spec(),
            ready == (final(self).phase() is Cancelled),
            exists|root: ChannelStatus, leaf: LeafStatus|
                (#[trigger] spec_cancel_step(old(self).phase(), root, leaf)) == (
                final(self).phase(),
                ready,
                ),
            old(self).phase() is Cancelled ==> ready,
            final(self).phase() is Listening ==> old(self).phase() is Listening,
            old(self).phase() is RootOnly ==> !(final(self).phase() is Listening),
    {
        if self.cancelled {
            proof {
                assert(spec_cancel_step(
                    CancelPhase::Cancelled,
                    ChannelStatus::Pending,
                    LeafStatus::Pending,
                ) == (CancelPhase::Cancelled, true));
            }
            return true;
        }
        let pre_phase = if self.receiver_leaf.is_some() {
            CancelPhase::Listening
        } else {
            CancelPhase::RootOnly
        };
        let mut leaf = self.receiver_leaf.take();
        let root_status = match oneshot_poll(&mut self.receiver_root, cx) {
            PollOutcome::Pending => ChannelStatus::Pending,
            PollOutcome::Delivered(_) => ChannelStatus::Fired,
            PollOutcome::Closed => ChannelStatus::Closed,
        };
        let mut leaf_status = LeafStatus::Pending;
        match root_status {
            ChannelStatus::Pending => {
                match leaf {
                    None => {
                    },
                    Some(mut leaf_receiver) => {
                        match oneshot_poll(&mut leaf_receiver, cx) {
                            PollOutcome::Pending => {
                                self.receiver_leaf = Some(leaf_receiver);
                            },
                            PollOutcome::Delivered(_notice) => {
                                leaf_status = LeafStatus::Detached;
                            },
                            PollOutcome::Closed => {
                                leaf_status = LeafStatus::Closed;
                            },
                        }
                    },
                }
            },
            _ => {
            },
        }
        let step = cancel_step(pre_phase, root_status, leaf_status);
        let ready = step.1;
        match step.0 {
            CancelPhase::Cancelled => {
                self.cancelled = true;
            },
            _ => {
            },
        }
        proof {
            assert(self.phase() == step.0);
            assert(spec_cancel_step(old(self).phase(), root_status, leaf_status) == (
                self.phase(),
                ready,
            ));
        }
        ready
    }

    /// Destroys the receiver and removes its root producer's entry from the
    /// registry, whichever phase it was in.  The removed producer, if its
    /// entry was still live, is handed back so the caller decides its fate.
    pub fn release(self, registry: &mut SignalRegistry<oneshot::Sender<()>>) -> (removed: Option<
        oneshot::Sender<()>,
    >)
        ensures
            removed is Some <==> old(registry).contains_token(self.token_spec()),
            !final(registry).contains_token(self.token_spec()),
            forall|k: u64|
                k != self.token_spec() ==> (#[trigger] final(registry).contains_token(k) <==> old(
                    registry,
                ).contains_token(k)),
            final(registry).issued() == old(registry).issued(),
            old(registry).contains_token(self.token_spec()) ==> final(registry).live_count() == old(
                registry,
            ).live_count() - 1,
    {
        registry.deregister(self.token)
    }
}

impl SignalReceiver for RemoteCancelReceiverWithSignal {

}

/// The child half of a two-level done pair: it holds both producer halves, so
/// its one destruction is observed by the immediate parent (through the
/// registered leaf consumer) and by the root aggregator alike.  Completion has
/// no detach alternative — a child cannot un-finish.
pub struct RemoteDoneSenderWithSignal {
    sender_root: oneshot::Sender<()>,
    sender_leaf: oneshot::Sender<()>,
    token: u64,
}

impl RemoteDoneSenderWithSignal {
    /// The identity token under which the leaf consumer is registered.
    pub closed spec fn token_spec(&self) -> u64 {
        self.token
    }

    /// The identity token under which the leaf consumer is registered.
    pub fn token(&self) -> (token: u64)
        ensures
            token == self.token_spec(),
    {
        self.token
    }

    /// Destroys both producers — one completion event, observed by the
    /// immediate parent and forwarded to the root aggregator — and removes
    /// the leaf consumer's entry from the registry.
    pub fn complete(self, registry: &mut SignalRegistry<oneshot::Receiver<()>>) -> (counterpart:
        Option<oneshot::Receiver<()>>)
        ensures
            counterpart is Some <==> old(registry).contains_token(self.token_spec()),
            !final(registry).contains_token(self.token_spec()),
            forall|k: u64|
                k != self.token_spec() ==> (#[trigger] final(registry).contains_token(k) <==> old(
                    registry,
                ).contains_token(k)),
            final(registry).issued() == old(registry).issued(),
            old(registry).contains_token(self.token_spec()) ==> final(registry).live_count() == old(
                registry,
            ).live_count() - 1,
    {
        registry.deregister(self.token)
    }
}

impl SignalSender for RemoteDoneSenderWithSignal {

}

/// The root aggregator's half of a two-level done pair: it awaits the root
/// channel's resolution with no branching, since completion, unlike
/// cancellation, has no detach alternative.
pub struct RemoteDoneReceiverWithSignal {
    receiver: oneshot::Receiver<()>,
    resolved: bool,
}

impl RemoteDoneReceiverWithSignal {
    /// Whether some poll already reported "done".
    pub closed spec fn has_resolved(&self) -> bool {
        self.resolved
    }

    /// Adopts a bare consumer half — for instance one collected from a
    /// registry of done consumers — as a done receiver.
    pub fn from_channel(receiver: oneshot::Receiver<()>) -> (r: Self)
        ensures
            !r.has_resolved(),
    {
        RemoteDoneReceiverWithSignal { receiver, resolved: false }
    }

    /// One poll: reports "done" when the counterpart producer has fired or
    /// was destroyed (a done producer signals completion by destruction), and
    /// resolves again without blocking on every poll after the first
    /// resolution.
    pub fn poll_signal(&mut self, cx: &mut Context<'_>) -> (ready: bool)
        ensures
            ready == final(self).has_resolved(),
            old(self).has_resolved() ==> ready,
    {
        if self.resolved {
            return true;
        }
        match oneshot_poll(&mut self.receiver, cx) {
            PollOutcome::Pending => false,
            PollOutcome::Delivered(_) => {
                self.resolved = true;
                true
            },
            PollOutcome::Closed => {
                self.resolved = true;
                true
            },
        }
    }
}

impl SignalReceiver for RemoteDoneReceiverWithSignal {

}

/// Creates a plain cancel pair against the given registry of cancel
/// producers: the producer half is registered under a fresh identity token,
/// and the returned receiver carries that token.
pub fn create_cancel_pair(registry: &mut SignalRegistry<oneshot::Sender<()>>) -> (receiver:
    RemoteCancelReceiver)
    requires
        old(registry).issued() < u64::MAX,
    ensures
        receiver.token_spec() == old(registry).issued(),
        !receiver.has_resolved(),
        !old(registry).contains_token(receiver.token_spec()),
        final(registry).contains_token(receiver.token_spec()),
        final(registry).issued() == old(registry).issued() + 1,
        final(registry).live_count() == old(registry).live_count() + 1,
        forall|k: u64|
            #[trigger] final(registry).contains_token(k) <==> (old(registry).contains_token(k) || k
                == receiver.token_spec()),
{
    let (sender, receiver) = oneshot_pair::<()>();
    let token = registry.register(sender);
    RemoteCancelReceiver { receiver, token, resolved: false }
}

/// Creates a two-level cancel pair: a fresh root producer is registered under
/// a fresh identity token for root-level fan-out, and the leaf channel links
/// the returned producer (the immediate parent's, forgettable) to the
/// returned receiver, which starts out listening on both channels.
pub fn create_cancel_pair_with_signal(registry: &mut SignalRegistry<oneshot::Sender<()>>) -> (pair:
    (RemoteCancelSenderWithSignal, RemoteCancelReceiverWithSignal))
    requires
        old(registry).issued() < u64::MAX,
    ensures
        pair.1.token_spec() == old(registry).issued(),
        pair.1.phase() is Listening,
        !old(registry).contains_token(pair.1.token_spec()),
        final(registry).contains_token(pair.1.token_spec()),
        final(registry).issued() == old(registry).issued() + 1,
        final(registry).live_count() == old(registry).live_count() + 1,
        forall|k: u64|
            #[trigger] final(registry).contains_token(k) <==> (old(registry).contains_token(k) || k
                == pair.1.token_spec()),
{
    let (leaf_sender, leaf_receiver) = oneshot_pair::<ForgetMessage>();
    let (root_sender, root_receiver) = oneshot_pair::<()>();
    let token = registry.register(root_sender);
    (
        RemoteCancelSenderWithSignal { sender: leaf_sender },
        RemoteCancelReceiverWithSignal {
            receiver_root: root_receiver,
            receiver_leaf: Some(leaf_receiver),
            token,
            cancelled: false,
        },
    )
}

/// Creates a plain done pair against the given registry of done consumers:
/// the consumer half is registered under a fresh identity token, and the
/// returned producer carries that token.  The child signals completion by
/// destroying the producer.
pub fn create_done_pair(registry: &mut SignalRegistry<oneshot::Receiver<()>>) -> (sender:
    RemoteDoneSender)
    requires
        old(registry).issued() < u64::MAX,
    ensures
        sender.token_spec() == old(registry).issued(),
        !old(registry).contains_token(sender.token_spec()),
        final(registry).contains_token(sender.token_spec()),
        final(registry).issued() == old(registry).issued() + 1,
        final(registry).live_count() == old(registry).live_count() + 1,
        forall|k: u64|
            #[trigger] final(registry).contains_token(k) <==> (old(registry).contains_token(k) || k
                == sender.token_spec()),
{
    let (sender, receiver) = oneshot_pair::<()>();
    let token = registry.register(receiver);
    RemoteDoneSender { sender, token }
}

/// Creates a two-level done pair: the leaf consumer is registered under a
/// fresh identity token for the immediate parent's fan-in, and the root
/// channel links the returned producer pair to the returned root receiver.
pub fn create_done_pair_with_signal(registry: &mut SignalRegistry<oneshot::Receiver<()>>) -> (pair:
    (RemoteDoneSenderWithSignal, RemoteDoneReceiverWithSignal))
    requires
        old(registry).issued() < u64::MAX,
    ensures
        pair.0.token_spec() == old(registry).issued(),
        !pair.1.has_resolved(),
        !old(registry).contains_token(pair.0.token_spec()),
        final(registry).contains_token(pair.0.token_spec()),
        final(registry).issued() == old(registry).issued() + 1,
        final(registry).live_count() == old(registry).live_count() + 1,
        forall|k: u64|
            #[trigger] final(registry).contains_token(k) <==> (old(registry).contains_token(k) || k
                == pair.0.token_spec()),
{
    let (root_sender, root_receiver) = oneshot_pair::<()>();
    let (leaf_sender, leaf_receiver) = oneshot_pair::<()>();
    let token = registry.register(leaf_receiver);
    (
        RemoteDoneSenderWithSignal { sender_root: root_sender, sender_leaf: leaf_sender, token },
        RemoteDoneReceiverWithSignal { receiver: root_receiver, resolved: false },
    )
}

} // verus!

