//! Trusted boundary around crossbeam's unbounded MPMC channels.
//!
//! The channels are the one synchronization primitive crossing the border
//! between the single-threaded UI side and the transport workers. Their
//! contents are shared among threads, so no contract here pins down what a
//! receive returns: the verified callers state what holds of every message
//! that may come back.

use vstd::prelude::*;

verus! {

/// Crossbeam's sending endpoint, opaque to the verifier.
#[verifier::external_type_specification]
#[verifier::external_body]
#[verifier::reject_recursive_types(T)]
pub struct ExSender<T>(crossbeam::channel::Sender<T>);

/// Crossbeam's receiving endpoint, opaque to the verifier.
#[verifier::external_type_specification]
#[verifier::external_body]
#[verifier::reject_recursive_types(T)]
pub struct ExReceiver<T>(crossbeam::channel::Receiver<T>);

/// Relies on crossbeam_channel::unbounded: creates one unbounded channel,
/// safe for concurrent multi-producer multi-consumer use, and returns its
/// two endpoints. That messages come out in the order they went in (FIFO)
/// is the channel's own documented behaviour; no contract here restates it,
/// since the queue's contents are shared mutable state no single value
/// determines.
#[verifier::external_body]
pub(crate) fn new_unbounded<T>() -> (
    crossbeam::channel::Sender<T>,
    crossbeam::channel::Receiver<T>,
) {
    crossbeam::channel::unbounded()
}

/// Relies on crossbeam_channel::Sender::send: never blocks on an unbounded
/// channel; queues the message unless every receiving endpoint was dropped,
/// in which case it reports failure. Whether a disconnect raced the call is
/// out of this crate's hands, so nothing is promised of the result.
#[verifier::external_body]
pub(crate) fn send_on<T>(tx: &crossbeam::channel::Sender<T>, msg: T) -> bool {
    tx.send(msg).is_ok()
}

/// Relies on crossbeam_channel::Receiver::try_recv: returns immediately,
/// either with a queued message or with nothing. Concurrent senders decide
/// what is queued, so nothing is promised of the result.
#[verifier::external_body]
pub(crate) fn try_recv_on<T>(rx: &crossbeam::channel::Receiver<T>) -> Option<T> {
    rx.try_recv().ok()
}

/// Relies on crossbeam_channel::Sender::clone: another sending endpoint of
/// the same channel, for transport workers to complete through.
#[verifier::external_body]
pub(crate) fn clone_sender<T>(tx: &crossbeam::channel::Sender<T>) -> crossbeam::channel::Sender<T> {
    tx.clone()
}

} // verus!
