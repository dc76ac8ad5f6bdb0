//! The producer side of the channel.
//!
//! A [`Sender`] wraps one producer endpoint of the queue together with
//! the fixed retry delay. Its `send_attempt` makes one non-blocking push
//! and decides what the driving task must do next: stop, back off for
//! the configured delay and retry with the very same message, or give
//! the message back to the caller with the terminal error. The contract
//! pins down the invariant of the send path: a message handed to a send
//! is never silently dropped or exchanged for another.

use vstd::prelude::*;

use crate::errors::Error;
use crate::queue::queue_clone_sender;
use crate::queue::queue_is_empty;
use crate::queue::queue_is_full;
use crate::queue::queue_len;
use crate::queue::queue_try_send;
use crate::queue::SendOutcome;

verus! {

/// The instruction a send attempt hands to the driving task.
#[derive(Debug)]
pub enum SendStep<T> {
    /// The queue accepted the message; the send is complete.
    Sent,
    /// The queue was at capacity. Suspend for the given number of
    /// milliseconds, then retry with the carried message, which is the
    /// exact message that was offered.
    Retry(u64, T),
    /// No consumer endpoint remains. The send is over; the carried
    /// message is the exact message that was offered, handed back to the
    /// caller together with the terminal error.
    Rejected(T, Error),
}

/// The decision at the heart of the send retry loop: what one observed
/// queue outcome obliges the send to answer, given the configured retry
/// delay.
///
/// The contract fixes the whole mapping, outcome by outcome: acceptance
/// completes the send; transient fullness becomes a retry instruction
/// carrying exactly the delay and the very message the queue handed
/// back, never an error; disconnection becomes the terminal rejection
/// carrying that message and `Error::Disconnected`, never a retry. So a
/// message is dropped only when the queue accepted it, fullness never
/// crosses the boundary as an error, and disconnection is never
/// retried.
pub fn decide_send<T>(outcome: SendOutcome<T>, delay: u64) -> (r: SendStep<T>)
    ensures
        outcome is Accepted ==> r is Sent,
        (outcome matches SendOutcome::Full(v) ==> r == SendStep::Retry(delay, v)),
        (outcome matches SendOutcome::Disconnected(v) ==> r == SendStep::Rejected(
            v,
            Error::Disconnected,
        )),
{
    match outcome {
        SendOutcome::Accepted => SendStep::Sent,
        SendOutcome::Full(v) => SendStep::Retry(delay, v),
        SendOutcome::Disconnected(v) => SendStep::Rejected(v, Error::Disconnected),
    }
}

/// A producer handle: one queue endpoint plus the retry delay, in
/// milliseconds, that a driving task must wait between attempts while
/// the queue is full.
#[verifier::reject_recursive_types(T)]
pub struct Sender<T> {
    pub inner: crossbeam_channel::Sender<T>,
    pub delay: u64,
}

impl<T> Sender<T> {
    /// Wraps a producer endpoint with the given retry delay.
    pub fn new(s: crossbeam_channel::Sender<T>, delay: u64) -> (r: Sender<T>)
        ensures
            r.inner == s,
            r.delay == delay,
    {
        Sender { inner: s, delay }
    }

    /// One step of the send retry loop: a single non-blocking push,
    /// answered as [`decide_send`] obliges for the observed outcome.
    ///
    /// Whatever the queue reports, the message is never lost: either it
    /// was accepted, or the returned step carries it unchanged. A retry
    /// instruction always names this sender's configured delay, and a
    /// rejection always carries the terminal disconnection error. Which
    /// outcome this attempt observes depends on the concurrent state of
    /// the queue; what each outcome obliges is fixed, and proved, in
    /// [`decide_send`].
    pub fn send_attempt(&self, msg: T) -> (r: SendStep<T>)
        ensures
            (r matches SendStep::Retry(d, v) ==> d == self.delay && v == msg),
            (r matches SendStep::Rejected(v, e) ==> v == msg && e == Error::Disconnected),
    {
        decide_send(queue_try_send(&self.inner, msg), self.delay)
    }

    /// A point-in-time snapshot of whether the queue is empty; racy by
    /// nature, since the queue is concurrently mutated.
    pub fn is_empty(&self) -> bool {
        queue_is_empty(&self.inner)
    }

    /// A point-in-time snapshot of whether the queue is at capacity;
    /// racy by nature, since the queue is concurrently mutated.
    pub fn is_full(&self) -> bool {
        queue_is_full(&self.inner)
    }

    /// A point-in-time snapshot of how many messages the queue holds;
    /// racy by nature, since the queue is concurrently mutated.
    pub fn len(&self) -> usize {
        queue_len(&self.inner)
    }
}

impl<T> Clone for Sender<T> {
    /// A new, independent producer sharing the same queue and the same
    /// retry delay; the retry state of any in-flight send on the
    /// original is untouched.
    fn clone(&self) -> (r: Self)
        ensures
            r.delay == self.delay,
    {
        Sender { inner: queue_clone_sender(&self.inner), delay: self.delay }
    }
}

} // verus!
