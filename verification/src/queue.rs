//! The queue collaborator: declarations and trusted wrappers for the
//! lock-free MPMC queue that the channel is built around.
//!
//! The queue is assumed correct and already thread-safe; every call into
//! it goes through one of the wrappers below, whose contracts state no
//! more than the queue's own documentation promises. Because the queue is
//! concurrently mutated through other endpoints, no wrapper promises
//! which outcome a call observes, only what holds of every outcome.

use vstd::prelude::*;

use crossbeam_channel::Receiver as CbReceiver;
use crossbeam_channel::Sender as CbSender;

verus! {

#[verifier::external_type_specification]
#[verifier::external_body]
#[verifier::reject_recursive_types(T)]
pub struct ExQueueSender<T>(CbSender<T>);

#[verifier::external_type_specification]
#[verifier::external_body]
#[verifier::reject_recursive_types(T)]
pub struct ExQueueReceiver<T>(CbReceiver<T>);

/// What one non-blocking push observed.
#[derive(Debug)]
pub enum SendOutcome<T> {
    /// The queue accepted the message.
    Accepted,
    /// The queue is at capacity; it hands the unaccepted message back.
    Full(T),
    /// No consumer endpoint remains; it hands the unaccepted message back.
    Disconnected(T),
}

/// What one non-blocking pop observed.
#[derive(Debug)]
pub enum RecvOutcome<T> {
    /// A message was taken from the queue.
    Value(T),
    /// The queue holds nothing right now, but producers remain.
    Empty,
    /// The queue holds nothing and no producer endpoint remains.
    Disconnected,
}

/// Relies on crossbeam_channel::unbounded: constructs one queue with no
/// capacity limit and returns its producer and consumer endpoints.
/// Construction cannot fail.
#[verifier::external_body]
pub(crate) fn queue_unbounded<T>() -> (crossbeam_channel::Sender<T>, crossbeam_channel::Receiver<T>) {
    crossbeam_channel::unbounded()
}

/// Relies on crossbeam_channel::bounded: constructs one queue holding at
/// most `cap` messages and returns its producer and consumer endpoints.
/// The queue packs the capacity, plus one, with two flag bits into one
/// index word, and panics on a capacity too large for that; a quarter of
/// the address range is within what every index width admits, and below
/// it construction cannot fail.
#[verifier::external_body]
pub(crate) fn queue_bounded<T>(cap: usize) -> (crossbeam_channel::Sender<T>, crossbeam_channel::Receiver<T>)
    requires
        cap <= usize::MAX / 4,
{
    crossbeam_channel::bounded(cap)
}

/// Relies on crossbeam_channel::Sender::try_send: a non-blocking push
/// that either accepts the message or returns an error carrying the
/// original message ("The returned error contains the original message").
#[verifier::external_body]
pub(crate) fn queue_try_send<T>(s: &crossbeam_channel::Sender<T>, msg: T) -> (r: SendOutcome<T>)
    ensures
        (r matches SendOutcome::Full(v) ==> v == msg),
        (r matches SendOutcome::Disconnected(v) ==> v == msg),
{
    match s.try_send(msg) {
        Ok(()) => SendOutcome::Accepted,
        Err(crossbeam_channel::TrySendError::Full(v)) => SendOutcome::Full(v),
        Err(crossbeam_channel::TrySendError::Disconnected(v)) => SendOutcome::Disconnected(v),
    }
}

/// Relies on crossbeam_channel::Receiver::try_recv: a non-blocking pop.
/// Which outcome is observed depends on the concurrent state of the
/// queue, so nothing is promised of the result.
#[verifier::external_body]
pub(crate) fn queue_try_recv<T>(r: &crossbeam_channel::Receiver<T>) -> RecvOutcome<T> {
    match r.try_recv() {
        Ok(v) => RecvOutcome::Value(v),
        Err(crossbeam_channel::TryRecvError::Empty) => RecvOutcome::Empty,
        Err(crossbeam_channel::TryRecvError::Disconnected) => RecvOutcome::Disconnected,
    }
}

/// Relies on Clone for crossbeam_channel::Sender: a new, independent
/// producer endpoint of the same queue.
#[verifier::external_body]
pub(crate) fn queue_clone_sender<T>(s: &crossbeam_channel::Sender<T>) -> crossbeam_channel::Sender<T> {
    s.clone()
}

/// Relies on crossbeam_channel::Sender::is_empty: a point-in-time
/// snapshot, racy by nature, so nothing is promised of the result.
#[verifier::external_body]
pub(crate) fn queue_is_empty<T>(s: &crossbeam_channel::Sender<T>) -> bool {
    s.is_empty()
}

/// Relies on crossbeam_channel::Sender::is_full: a point-in-time
/// snapshot, racy by nature, so nothing is promised of the result.
#[verifier::external_body]
pub(crate) fn queue_is_full<T>(s: &crossbeam_channel::Sender<T>) -> bool {
    s.is_full()
}

/// Relies on crossbeam_channel::Sender::len: a point-in-time snapshot,
/// racy by nature, so nothing is promised of the result.
#[verifier::external_body]
pub(crate) fn queue_len<T>(s: &crossbeam_channel::Sender<T>) -> usize {
    s.len()
}

} // verus!
