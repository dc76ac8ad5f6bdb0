//! A mathematical model of the channel and proofs of the protocol's
//! delivery laws.
//!
//! The real queue is a concurrently mutated outside collaborator, so its
//! wrappers in [`crate::queue`] can only state what holds of every
//! outcome of a single call. This module writes the collaborator's
//! documented contract down as a transition model over a message
//! sequence: a push appends to the back unless the queue is full or
//! disconnected, a pop delivers from the front, fullness is transient,
//! and disconnection of an empty queue is terminal. The proof functions
//! then establish the laws of the retry protocol over that model: FIFO
//! delivery without loss or duplication, merged producers, message
//! preservation, immediate termination on exhaustion, and the lower
//! bound on the wait a blocked producer sits through. Each law is proved
//! once for every message type, queue capacity and channel state its
//! statement admits.

use vstd::prelude::*;

use crate::queue::RecvOutcome;
use crate::queue::SendOutcome;

verus! {

/// The state of one channel: the messages it holds, oldest first, its
/// capacity (`None` for an unbounded queue), and how many producer and
/// consumer endpoints remain.
#[verifier::ext_equal]
pub ghost struct ChannelModel<T> {
    pub messages: Seq<T>,
    pub cap: Option<nat>,
    pub senders: nat,
    pub receivers: nat,
}

/// Whether a push would find the queue at capacity.
pub open spec fn model_is_full<T>(c: ChannelModel<T>) -> bool {
    match c.cap {
        Option::Some(k) => c.messages.len() >= k,
        Option::None => false,
    }
}

/// One non-blocking push: disconnection is observed before fullness, an
/// accepted message goes to the back, and a refused push leaves the
/// queue untouched.
pub open spec fn step_send<T>(c: ChannelModel<T>, m: T) -> (ChannelModel<T>, SendOutcome<T>) {
    if c.receivers == 0 {
        (c, SendOutcome::Disconnected(m))
    } else if model_is_full(c) {
        (c, SendOutcome::Full(m))
    } else {
        (
            ChannelModel {
                messages: c.messages.push(m),
                cap: c.cap,
                senders: c.senders,
                receivers: c.receivers,
            },
            SendOutcome::Accepted,
        )
    }
}

/// One non-blocking pop: a held message is delivered from the front even
/// when every producer is gone; an empty queue reports disconnection
/// only once no producer remains, and transient emptiness otherwise.
pub open spec fn step_recv<T>(c: ChannelModel<T>) -> (ChannelModel<T>, RecvOutcome<T>) {
    if c.messages.len() > 0 {
        (
            ChannelModel {
                messages: c.messages.drop_first(),
                cap: c.cap,
                senders: c.senders,
                receivers: c.receivers,
            },
            RecvOutcome::Value(c.messages[0]),
        )
    } else if c.senders == 0 {
        (c, RecvOutcome::Disconnected)
    } else {
        (c, RecvOutcome::Empty)
    }
}

/// The producer protocol run over a whole message sequence: each message
/// is offered once, in order. On an unbounded channel with a consumer
/// still attached every offer is accepted.
pub open spec fn send_all<T>(c: ChannelModel<T>, msgs: Seq<T>) -> ChannelModel<T>
    decreases msgs.len(),
{
    if msgs.len() == 0 {
        c
    } else {
        send_all(step_send(c, msgs[0]).0, msgs.drop_first())
    }
}

/// The consumer protocol run until the queue holds nothing: the sequence
/// of delivered messages, in delivery order.
pub open spec fn drain<T>(c: ChannelModel<T>) -> Seq<T>
    decreases c.messages.len(),
{
    if c.messages.len() == 0 {
        Seq::empty()
    } else {
        seq![c.messages[0]] + drain(step_recv(c).0)
    }
}

/// A message handed to a push is never silently dropped or exchanged:
/// either the queue accepts it, appending exactly that message to the
/// back, or the queue is left untouched and the very same message comes
/// back inside the outcome.
pub proof fn lemma_send_preserves_message<T>(c: ChannelModel<T>, m: T)
    ensures
        step_send(c, m).1 is Accepted ==> step_send(c, m).0.messages =~= c.messages.push(m),
        (step_send(c, m).1 matches SendOutcome::Full(v) ==> v == m && step_send(c, m).0 == c),
        (step_send(c, m).1 matches SendOutcome::Disconnected(v) ==> v == m && step_send(c, m).0 == c),
{
}

/// A push to a channel with zero remaining receivers is refused as
/// disconnected: the original message comes back unmodified and the
/// queue is untouched. The condition is terminal, so the protocol never
/// retries it.
pub proof fn lemma_send_disconnected<T>(c: ChannelModel<T>, m: T)
    requires
        c.receivers == 0,
    ensures
        step_send(c, m).1 == SendOutcome::Disconnected(m),
        step_send(c, m).0 == c,
{
}

/// A push to a bounded channel at capacity, with a consumer still
/// attached, is refused as transiently full: the original message comes
/// back unmodified and the queue is untouched, so while nothing drains
/// the queue a blocked producer can only back off and retry.
pub proof fn lemma_send_full<T>(c: ChannelModel<T>, m: T)
    requires
        c.receivers > 0,
        model_is_full(c),
    ensures
        step_send(c, m).1 == SendOutcome::Full(m),
        step_send(c, m).0 == c,
{
}

/// A pull from a channel with zero remaining senders and an empty queue
/// observes disconnection at once, and draining such a channel delivers
/// nothing: the consumer terminates immediately instead of retrying.
pub proof fn lemma_recv_exhausted<T>(c: ChannelModel<T>)
    requires
        c.senders == 0,
        c.messages.len() == 0,
    ensures
        step_recv(c).1 == RecvOutcome::<T>::Disconnected,
        drain(c) =~= Seq::<T>::empty(),
{
}

/// Transient emptiness never terminates the consumer: a pull from an
/// empty queue that still has a producer attached observes emptiness,
/// removes nothing, and leaves the channel exactly as it was, so the
/// protocol backs off and retries instead of ending the sequence.
pub proof fn lemma_recv_empty_is_transient<T>(c: ChannelModel<T>)
    requires
        c.senders > 0,
        c.messages.len() == 0,
    ensures
        step_recv(c).1 == RecvOutcome::<T>::Empty,
        step_recv(c).0 == c,
{
}

/// Offering a message sequence to an unbounded channel with a consumer
/// attached appends exactly that sequence to the queue, in order, and
/// changes nothing else.
pub proof fn lemma_send_all_appends<T>(c: ChannelModel<T>, msgs: Seq<T>)
    requires
        c.cap is None,
        c.receivers > 0,
    ensures
        send_all(c, msgs).messages =~= c.messages + msgs,
        send_all(c, msgs).cap == c.cap,
        send_all(c, msgs).senders == c.senders,
        send_all(c, msgs).receivers == c.receivers,
    decreases msgs.len(),
{
    if msgs.len() == 0 {
        assert(c.messages + msgs =~= c.messages);
    } else {
        let c1 = step_send(c, msgs[0]).0;
        lemma_send_all_appends(c1, msgs.drop_first());
        assert(c.messages.push(msgs[0]) + msgs.drop_first() =~= c.messages + msgs);
    }
}

/// Draining a channel delivers exactly the messages it holds, oldest
/// first: the consumer never fabricates, reorders, loses or duplicates a
/// value.
pub proof fn lemma_drain_delivers_queue<T>(c: ChannelModel<T>)
    ensures
        drain(c) =~= c.messages,
    decreases c.messages.len(),
{
    if c.messages.len() > 0 {
        lemma_drain_delivers_queue(step_recv(c).0);
        assert(seq![c.messages[0]] + c.messages.drop_first() =~= c.messages);
    }
}

/// FIFO delivery with no loss and no duplication: when one producer
/// offers a message sequence to an empty unbounded channel with a
/// consumer attached, draining the channel delivers exactly that
/// sequence, in the order sent.
pub proof fn lemma_fifo_delivery<T>(c: ChannelModel<T>, msgs: Seq<T>)
    requires
        c.cap is None,
        c.receivers > 0,
        c.messages.len() == 0,
    ensures
        drain(send_all(c, msgs)) =~= msgs,
{
    lemma_send_all_appends(c, msgs);
    lemma_drain_delivers_queue(send_all(c, msgs));
    assert(c.messages + msgs =~= msgs);
}

/// `s` is one merge of `a` and `b`: every element of `s` comes from one
/// of the two sources, each source contributes all of its elements, and
/// the relative order within each source is preserved. How the two
/// sources interleave is left entirely open.
pub open spec fn is_interleaving<T>(s: Seq<T>, a: Seq<T>, b: Seq<T>) -> bool
    decreases s.len(),
{
    if s.len() == 0 {
        a.len() == 0 && b.len() == 0
    } else {
        ||| (a.len() > 0 && a[0] == s[0] && is_interleaving(s.drop_first(), a.drop_first(), b))
        ||| (b.len() > 0 && b[0] == s[0] && is_interleaving(s.drop_first(), a, b.drop_first()))
    }
}

/// A merge of two sequences holds exactly the two lengths together.
pub proof fn lemma_interleaving_len<T>(s: Seq<T>, a: Seq<T>, b: Seq<T>)
    requires
        is_interleaving(s, a, b),
    ensures
        s.len() == a.len() + b.len(),
    decreases s.len(),
{
    if s.len() > 0 {
        if a.len() > 0 && a[0] == s[0] && is_interleaving(s.drop_first(), a.drop_first(), b) {
            lemma_interleaving_len(s.drop_first(), a.drop_first(), b);
        } else {
            lemma_interleaving_len(s.drop_first(), a, b.drop_first());
        }
    }
}

/// Two producers merged into one downstream channel: however their
/// offers interleave on the way in, draining the channel delivers
/// exactly that merge. The consumer sees all of both streams — exactly
/// the two lengths together — with each source's relative order
/// preserved, while the interleaving across sources stays unspecified.
pub proof fn lemma_merged_delivery<T>(c: ChannelModel<T>, s: Seq<T>, a: Seq<T>, b: Seq<T>)
    requires
        c.cap is None,
        c.receivers > 0,
        c.messages.len() == 0,
        is_interleaving(s, a, b),
    ensures
        drain(send_all(c, s)) =~= s,
        drain(send_all(c, s)).len() == a.len() + b.len(),
        is_interleaving(drain(send_all(c, s)), a, b),
{
    lemma_fifo_delivery(c, s);
    lemma_interleaving_len(s, a, b);
    assert(drain(send_all(c, s)) == s);
}

/// The wait one send sits through, given how many times it observed a
/// full queue: every observation mandates one full retry delay before
/// the next attempt.
pub open spec fn retry_wait_ms(delay: nat, retries: nat) -> nat {
    retries * delay
}

/// The wait a producer issuing several sends in order sits through:
/// `retries` holds, per send, how many times that send observed a full
/// queue.
pub open spec fn total_retry_wait_ms(delay: nat, retries: Seq<nat>) -> nat
    decreases retries.len(),
{
    if retries.len() == 0 {
        0
    } else {
        retry_wait_ms(delay, retries[0]) + total_retry_wait_ms(delay, retries.drop_first())
    }
}

/// A blocked send completes only after at least one full retry
/// interval: a send that observed a full queue at least once waits at
/// least `delay`.
pub proof fn lemma_blocked_send_waits(delay: nat, retries: nat)
    requires
        retries >= 1,
    ensures
        retry_wait_ms(delay, retries) >= delay,
{
    assert(retries * delay >= 1 * delay) by (nonlinear_arith)
        requires retries >= 1;
}

/// Sends that each observed a full queue at least once wait, together,
/// at least one retry interval apiece.
pub proof fn lemma_all_blocked_wait(delay: nat, retries: Seq<nat>)
    requires
        forall|i: int| 0 <= i < retries.len() ==> retries[i] >= 1,
    ensures
        total_retry_wait_ms(delay, retries) >= retries.len() * delay,
    decreases retries.len(),
{
    if retries.len() > 0 {
        assert(forall|i: int| 0 <= i < retries.drop_first().len() ==> retries.drop_first()[i] >= 1);
        lemma_all_blocked_wait(delay, retries.drop_first());
        assert(retries[0] * delay >= 1 * delay) by (nonlinear_arith)
            requires retries[0] >= 1;
        assert((retries.len() - 1) * delay + delay == retries.len() * delay) by (nonlinear_arith);
    }
}

/// Backpressure on a bounded channel: when a producer issues a run of
/// sends and every send after the first observes a full queue at least
/// once — as each must while nothing drains a channel already at
/// capacity — the producer waits at least one retry interval for every
/// send after the first.
pub proof fn lemma_backpressure_total_wait(delay: nat, retries: Seq<nat>)
    requires
        retries.len() >= 1,
        forall|i: int| 1 <= i < retries.len() ==> retries[i] >= 1,
    ensures
        total_retry_wait_ms(delay, retries) >= (retries.len() - 1) * delay,
{
    assert(forall|i: int| 0 <= i < retries.drop_first().len() ==> retries.drop_first()[i] >= 1);
    lemma_all_blocked_wait(delay, retries.drop_first());
}

} // verus!
