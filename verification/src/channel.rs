//! The signal channel: a single-fire, single-consumer rendezvous.
//!
//! The channel itself is `futures`' oneshot channel; this module declares its
//! two halves to the verifier and wraps the three calls the protocol makes —
//! creating a pair, sending the one message, and polling the consumer half.

use vstd::prelude::*;
use core::future::Future;
use futures::channel::oneshot;

verus! {

#[verifier::external_type_specification]
#[verifier::external_body]
#[verifier::reject_recursive_types(T)]
pub struct ExOneshotSender<T>(oneshot::Sender<T>);

#[verifier::external_type_specification]
#[verifier::external_body]
#[verifier::reject_recursive_types(T)]
pub struct ExOneshotReceiver<T>(oneshot::Receiver<T>);

#[verifier::external_type_specification]
#[verifier::external_body]
pub struct ExOneshotCanceled(oneshot::Canceled);

#[verifier::external_type_specification]
#[verifier::external_body]
pub struct ExContext<'a>(core::task::Context<'a>);

/// What one poll of a consumer half observed: nothing yet, the one message,
/// or a channel closed by the producer's destruction.
pub enum PollOutcome<T> {
    Pending,
    Delivered(T),
    Closed,
}

/// Relies on `futures::channel::oneshot::channel`: returns the producer and
/// consumer halves of a fresh single-message channel.
#[verifier::external_body]
pub(crate) fn oneshot_pair<T>() -> (oneshot::Sender<T>, oneshot::Receiver<T>) {
    oneshot::channel()
}

/// Relies on `oneshot::Sender::send`: consumes the producer half and delivers
/// the value, unless the consumer half is already gone, in which case the
/// value comes back unchanged.
#[verifier::external_body]
pub(crate) fn oneshot_send<T>(sender: oneshot::Sender<T>, value: T) -> (r: Result<(), T>)
    ensures
        r matches Err(v) ==> v == value,
{
    sender.send(value)
}

/// Relies on `<oneshot::Receiver as Future>::poll`: reports the one message
/// if the producer sent it, a closed channel if the producer is gone (also on
/// every poll after the message was already taken), and pending otherwise.
/// The call registers the context's waker and never panics.
#[verifier::external_body]
pub(crate) fn oneshot_poll<T>(
    receiver: &mut oneshot::Receiver<T>,
    cx: &mut core::task::Context<'_>,
) -> (outcome: PollOutcome<T>) {
    match core::pin::Pin::new(receiver).poll(cx) {
        core::task::Poll::Pending => PollOutcome::Pending,
        core::task::Poll::Ready(Ok(value)) => PollOutcome::Delivered(value),
        core::task::Poll::Ready(Err(_)) => PollOutcome::Closed,
    }
}

} // verus!
