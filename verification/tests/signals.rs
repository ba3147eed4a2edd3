use std::task::Context;

use futures::channel::oneshot;
use futures::task::noop_waker;

use scope_signals::registry::SignalRegistry;
use scope_signals::signals::create_cancel_pair;
use scope_signals::signals::create_cancel_pair_with_signal;
use scope_signals::signals::create_done_pair;
use scope_signals::signals::create_done_pair_with_signal;
use scope_signals::signals::ForgetMessage;
use scope_signals::signals::RemoteDoneReceiverWithSignal;
use scope_signals::ForgettableSignalSender;

#[test]
fn forget_message_can_be_built() {
    let _message = ForgetMessage::new();
}

#[test]
fn plain_cancel_resolves_on_producer_destruction_and_stays_resolved() {
    let waker = noop_waker();
    let mut cx = Context::from_waker(&waker);
    let mut registry: SignalRegistry<oneshot::Sender<()>> = SignalRegistry::new();
    let mut receiver = create_cancel_pair(&mut registry);
    assert!(!receiver.poll_signal(&mut cx));
    // Destroy the producer capability without sending.
    let producers = registry.drain();
    drop(producers);
    assert!(receiver.poll_signal(&mut cx));
    // Re-polling after resolution resolves again without blocking.
    assert!(receiver.poll_signal(&mut cx));
    assert!(receiver.poll_signal(&mut cx));
}

#[test]
fn plain_cancel_resolves_on_fire() {
    let waker = noop_waker();
    let mut cx = Context::from_waker(&waker);
    let mut registry: SignalRegistry<oneshot::Sender<()>> = SignalRegistry::new();
    let mut receiver = create_cancel_pair(&mut registry);
    let mut producers = registry.drain();
    let producer = producers.pop().expect("one producer was registered");
    producer.send(()).expect("the consumer half is alive");
    assert!(receiver.poll_signal(&mut cx));
}

#[test]
fn released_cancel_receiver_leaves_no_registry_entry() {
    let mut registry: SignalRegistry<oneshot::Sender<()>> = SignalRegistry::new();
    let receiver = create_cancel_pair(&mut registry);
    let keeper = create_cancel_pair(&mut registry);
    assert_eq!(registry.len(), 2);
    let token = receiver.token();
    let removed = receiver.release(&mut registry);
    assert!(removed.is_some());
    assert!(!registry.is_registered(token));
    assert!(registry.is_registered(keeper.token()));
    assert_eq!(registry.len(), 1);
}

#[test]
fn leaf_close_without_forget_reads_as_cancellation() {
    let waker = noop_waker();
    let mut cx = Context::from_waker(&waker);
    let mut registry: SignalRegistry<oneshot::Sender<()>> = SignalRegistry::new();
    let (leaf_producer, mut receiver) = create_cancel_pair_with_signal(&mut registry);
    assert!(!receiver.poll_signal(&mut cx));
    // Destroy the leaf producer without calling forget().
    drop(leaf_producer);
    assert!(receiver.poll_signal(&mut cx));
    assert!(receiver.poll_signal(&mut cx));
}

#[test]
fn root_fire_cancels_while_dual_listening() {
    let waker = noop_waker();
    let mut cx = Context::from_waker(&waker);
    let mut registry: SignalRegistry<oneshot::Sender<()>> = SignalRegistry::new();
    let (leaf_producer, mut receiver) = create_cancel_pair_with_signal(&mut registry);
    assert!(!receiver.poll_signal(&mut cx));
    let mut producers = registry.drain();
    let root_producer = producers.pop().expect("one root producer was registered");
    root_producer.send(()).expect("the consumer half is alive");
    // The leaf producer is still alive and untouched.
    assert!(receiver.poll_signal(&mut cx));
    drop(leaf_producer);
}

#[test]
fn forget_detaches_and_only_the_root_resolves_later() {
    let waker = noop_waker();
    let mut cx = Context::from_waker(&waker);
    let mut registry: SignalRegistry<oneshot::Sender<()>> = SignalRegistry::new();
    let (leaf_producer, mut receiver) = create_cancel_pair_with_signal(&mut registry);
    leaf_producer.forget();
    // The detach notice must not read as cancellation.
    assert!(!receiver.poll_signal(&mut cx));
    assert!(!receiver.poll_signal(&mut cx));
    // Only a root resolution cancels now.
    let mut producers = registry.drain();
    let root_producer = producers.pop().expect("one root producer was registered");
    root_producer.send(()).expect("the consumer half is alive");
    assert!(receiver.poll_signal(&mut cx));
    assert!(receiver.poll_signal(&mut cx));
}

#[test]
fn forgotten_receiver_survives_leaf_destruction() {
    let waker = noop_waker();
    let mut cx = Context::from_waker(&waker);
    let mut registry: SignalRegistry<oneshot::Sender<()>> = SignalRegistry::new();
    let (leaf_producer, mut receiver) = create_cancel_pair_with_signal(&mut registry);
    leaf_producer.forget();
    assert!(!receiver.poll_signal(&mut cx));
    // The leaf channel is gone entirely; the receiver keeps pending on the
    // root, and closing the root (registry dropped) then cancels it.
    let producers = registry.drain();
    drop(producers);
    assert!(receiver.poll_signal(&mut cx));
}

#[test]
fn released_forwarding_receiver_leaves_no_registry_entry() {
    let mut registry: SignalRegistry<oneshot::Sender<()>> = SignalRegistry::new();
    let (leaf_producer, receiver) = create_cancel_pair_with_signal(&mut registry);
    let token = receiver.token();
    assert!(registry.is_registered(token));
    let removed = receiver.release(&mut registry);
    assert!(removed.is_some());
    assert!(!registry.is_registered(token));
    assert_eq!(registry.len(), 0);
    drop(leaf_producer);
}

#[test]
fn done_pair_resolves_on_child_destruction_and_entry_is_gone() {
    let waker = noop_waker();
    let mut cx = Context::from_waker(&waker);
    let mut registry: SignalRegistry<oneshot::Receiver<()>> = SignalRegistry::new();
    let child = create_done_pair(&mut registry);
    assert_eq!(registry.len(), 1);
    // The parent collects the consumer half to await it.
    let mut consumers = registry.drain();
    let consumer = consumers.pop().expect("one consumer was registered");
    let mut parent = RemoteDoneReceiverWithSignal::from_channel(consumer);
    // Before the child signals completion, the parent's await is pending.
    assert!(!parent.poll_signal(&mut cx));
    // Destroy the child producer.
    let counterpart = child.complete(&mut registry);
    assert!(counterpart.is_none());
    // The parent's await resolves, and the registry holds no entry.
    assert!(parent.poll_signal(&mut cx));
    assert_eq!(registry.len(), 0);
}

#[test]
fn completing_a_done_child_removes_its_own_entry() {
    let mut registry: SignalRegistry<oneshot::Receiver<()>> = SignalRegistry::new();
    let child = create_done_pair(&mut registry);
    let token = child.token();
    assert!(registry.is_registered(token));
    let counterpart = child.complete(&mut registry);
    assert!(counterpart.is_some());
    assert!(!registry.is_registered(token));
    assert_eq!(registry.len(), 0);
}

#[test]
fn forwarded_done_signal_reaches_root_and_leaf_alike() {
    let waker = noop_waker();
    let mut cx = Context::from_waker(&waker);
    let mut registry: SignalRegistry<oneshot::Receiver<()>> = SignalRegistry::new();
    let (child, mut root_receiver) = create_done_pair_with_signal(&mut registry);
    assert!(!root_receiver.poll_signal(&mut cx));
    // The immediate parent collects the leaf consumer.
    let mut consumers = registry.drain();
    let leaf_consumer = consumers.pop().expect("one leaf consumer was registered");
    let mut leaf_receiver = RemoteDoneReceiverWithSignal::from_channel(leaf_consumer);
    assert!(!leaf_receiver.poll_signal(&mut cx));
    // One destruction event is observed on both levels.
    let counterpart = child.complete(&mut registry);
    assert!(counterpart.is_none());
    assert!(root_receiver.poll_signal(&mut cx));
    assert!(leaf_receiver.poll_signal(&mut cx));
}
