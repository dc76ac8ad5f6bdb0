//! Async-style extensions for a lock-free multi-producer/multi-consumer
//! queue.
//!
//! Producers and consumers that would otherwise spin on a transiently
//! full or empty queue instead suspend and are retried after a fixed,
//! caller-supplied delay. The queue itself is an outside collaborator;
//! this crate supplies the retry protocol around its non-blocking
//! `try_send` / `try_recv` operations: a [`Sender`] whose send attempts
//! report exactly when to back off and with which message to retry, and a
//! [`Receiver`] that behaves as a lazy sequence, ending only on
//! disconnection. A host scheduler drives the actual suspension; the
//! decision logic here is synchronous and fully specified.

use vstd::prelude::*;

mod errors;
pub mod model;
mod queue;
mod receiver;
mod sender;

pub use errors::Error;
pub use model::ChannelModel;
pub use queue::RecvOutcome;
pub use queue::SendOutcome;
pub use receiver::decide_recv;
pub use receiver::Receiver;
pub use receiver::RecvState;
pub use receiver::RecvStep;
pub use sender::decide_send;
pub use sender::SendStep;
pub use sender::Sender;

verus! {

/// Constructs a bound pair over one queue with no capacity limit, both
/// ends configured with the same fixed retry delay, in milliseconds.
/// Construction cannot fail; the receiver starts idle.
pub fn unbounded<T>(delay: u64) -> (r: (Sender<T>, Receiver<T>))
    ensures
        r.0.delay == delay,
        r.1.delay == delay,
        r.1.state is Idle,
{
    let (tx, rx) = queue::queue_unbounded();
    (Sender::new(tx, delay), Receiver::new(rx, delay))
}

/// Constructs a bound pair over one queue holding at most `cap`
/// messages, both ends configured with the same fixed retry delay, in
/// milliseconds. The queue refuses, by a panic, a capacity near the top
/// of its index range, so a machine limit of a quarter of the address
/// range is required here; below it construction cannot fail, and the
/// receiver starts idle.
pub fn bounded<T>(delay: u64, cap: usize) -> (r: (Sender<T>, Receiver<T>))
    requires
        cap <= usize::MAX / 4,
    ensures
        r.0.delay == delay,
        r.1.delay == delay,
        r.1.state is Idle,
{
    let (tx, rx) = queue::queue_bounded(cap);
    (Sender::new(tx, delay), Receiver::new(rx, delay))
}

} // verus!
