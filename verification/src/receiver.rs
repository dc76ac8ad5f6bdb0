//! The consumer side of the channel.
//!
//! A [`Receiver`] wraps one consumer endpoint of the queue, the fixed
//! retry delay, and the retry state of the pull loop. It behaves as a
//! lazy, single-pass sequence: each `recv_attempt` makes at most one
//! non-blocking pop and decides what the driving task must do next:
//! yield a value, back off for the configured delay and come back, or
//! end the sequence for good. The contract pins down the state machine:
//! a wait instruction always arms exactly the configured delay, ending
//! is terminal, and once ended the receiver never polls the queue again.

use vstd::prelude::*;

use crate::queue::queue_try_recv;
use crate::queue::RecvOutcome;

verus! {

/// The retry state of the pull loop.
#[derive(Clone, Copy, Debug)]
pub enum RecvState {
    /// No retry delay is outstanding; the next pull polls the queue.
    Idle,
    /// A retry delay is outstanding; the driving task is expected to
    /// report its expiry before pulling again.
    Waiting,
    /// The queue reported disconnection while empty. Terminal: no later
    /// pull polls the queue again.
    Ended,
}

/// The instruction a pull attempt hands to the driving task.
#[derive(Debug)]
pub enum RecvStep<T> {
    /// The queue yielded this message; pull again for the next one.
    Item(T),
    /// The queue was transiently empty. Suspend for the given number of
    /// milliseconds, report the expiry, then pull again.
    Wait(u64),
    /// The source is exhausted and disconnected; the sequence is over.
    Ended,
}

/// The decision at the heart of the pull loop: what one observed queue
/// outcome obliges the receiver to answer, and which retry state it
/// settles in, given the configured retry delay.
///
/// The contract fixes the whole mapping, outcome by outcome: a
/// delivered message is yielded — exactly the message the queue handed
/// over, never invented, never discarded — and the loop stays idle;
/// transient emptiness becomes a wait for exactly the delay, never the
/// end of the sequence; only a disconnection outcome ends the sequence,
/// and it never arms a wait.
pub fn decide_recv<T>(outcome: RecvOutcome<T>, delay: u64) -> (r: (RecvStep<T>, RecvState))
    ensures
        (outcome matches RecvOutcome::Value(v) ==> r.0 == RecvStep::Item(v) && r.1 is Idle),
        outcome is Empty ==> r.0 == RecvStep::<T>::Wait(delay) && r.1 is Waiting,
        outcome is Disconnected ==> r.0 is Ended && r.1 is Ended,
{
    match outcome {
        RecvOutcome::Value(v) => (RecvStep::Item(v), RecvState::Idle),
        RecvOutcome::Empty => (RecvStep::Wait(delay), RecvState::Waiting),
        RecvOutcome::Disconnected => (RecvStep::Ended, RecvState::Ended),
    }
}

/// A consumer handle: one queue endpoint, the retry delay in
/// milliseconds that a driving task must wait between attempts while
/// the queue is empty, and the retry state of the pull loop.
#[verifier::reject_recursive_types(T)]
pub struct Receiver<T> {
    pub inner: crossbeam_channel::Receiver<T>,
    pub delay: u64,
    pub state: RecvState,
}

impl<T> Receiver<T> {
    /// Wraps a consumer endpoint with the given retry delay; the pull
    /// loop starts idle, with no retry delay outstanding.
    pub fn new(r: crossbeam_channel::Receiver<T>, delay: u64) -> (rx: Receiver<T>)
        ensures
            rx.inner == r,
            rx.delay == delay,
            rx.state is Idle,
    {
        Receiver { inner: r, delay, state: RecvState::Idle }
    }

    /// Gives the underlying consumer endpoint back, discarding the retry
    /// state.
    pub fn into_inner(self) -> (r: crossbeam_channel::Receiver<T>)
        ensures
            r == self.inner,
    {
        self.inner
    }

    /// One step of the pull loop: at most one non-blocking pop,
    /// answered as [`decide_recv`] obliges for the observed outcome.
    ///
    /// An ended receiver stays ended and reports so without touching the
    /// queue: transient emptiness never terminates the sequence, only a
    /// disconnection reported by the queue does, and from then on the
    /// answer is final. A wait instruction always names this receiver's
    /// configured delay and leaves the loop waiting; a yielded message
    /// leaves it idle, ready for the next pull. Which outcome an attempt
    /// observes depends on the concurrent state of the queue; what each
    /// outcome obliges is fixed, and proved, in [`decide_recv`].
    pub fn recv_attempt(&mut self) -> (r: RecvStep<T>)
        ensures
            final(self).inner == old(self).inner,
            final(self).delay == old(self).delay,
            old(self).state is Ended ==> r is Ended && final(self).state is Ended,
            (r matches RecvStep::Wait(d) ==> d == old(self).delay && final(self).state is Waiting),
            (r matches RecvStep::Item(_) ==> final(self).state is Idle),
            r is Ended <==> final(self).state is Ended,
            r is Wait <==> final(self).state is Waiting,
    {
        match self.state {
            RecvState::Ended => RecvStep::Ended,
            _ => {
                let (step, settled) = decide_recv(queue_try_recv(&self.inner), self.delay);
                self.state = settled;
                step
            },
        }
    }

    /// The driving task reports that the armed retry delay has elapsed:
    /// a waiting pull loop settles back to idle, and any other state is
    /// left as it is.
    pub fn timer_elapsed(&mut self)
        ensures
            final(self).inner == old(self).inner,
            final(self).delay == old(self).delay,
            final(self).state == (if old(self).state is Waiting { RecvState::Idle } else { old(self).state }),
    {
        match self.state {
            RecvState::Waiting => {
                self.state = RecvState::Idle;
            },
            _ => {},
        }
    }
}

} // verus!
