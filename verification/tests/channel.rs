use channel_async::bounded;
use channel_async::decide_recv;
use channel_async::decide_send;
use channel_async::unbounded;
use channel_async::Error;
use channel_async::Receiver;
use channel_async::RecvOutcome;
use channel_async::RecvState;
use channel_async::RecvStep;
use channel_async::SendOutcome;
use channel_async::SendStep;

fn assert_send<T: Send>() {}
fn assert_sync<T: Sync>() {}

#[test]
fn assert_contracts() {
    let (_, _r) = unbounded::<i32>(100);

    assert_send::<Receiver<i32>>();
    assert_sync::<Receiver<i32>>();
}

/// The send decision, outcome by outcome: acceptance completes the
/// send, fullness becomes a retry carrying the same message and the
/// configured delay, disconnection becomes the terminal rejection
/// carrying the same message.
#[test]
fn send_decision_maps_every_outcome() {
    match decide_send(SendOutcome::<u32>::Accepted, 10) {
        SendStep::Sent => {}
        _ => panic!("acceptance did not complete the send"),
    }
    match decide_send(SendOutcome::Full(7u32), 10) {
        SendStep::Retry(d, v) => {
            assert_eq!(d, 10);
            assert_eq!(v, 7);
        }
        _ => panic!("fullness did not become a retry"),
    }
    match decide_send(SendOutcome::Disconnected(7u32), 10) {
        SendStep::Rejected(v, e) => {
            assert_eq!(v, 7);
            assert_eq!(e, Error::Disconnected);
        }
        _ => panic!("disconnection did not become the terminal rejection"),
    }
}

/// The pull decision, outcome by outcome: a delivered value is yielded
/// and the loop stays idle, emptiness becomes a wait for the configured
/// delay, disconnection ends the sequence.
#[test]
fn recv_decision_maps_every_outcome() {
    match decide_recv(RecvOutcome::Value(5u32), 10) {
        (RecvStep::Item(v), RecvState::Idle) => assert_eq!(v, 5),
        _ => panic!("a delivered value was not yielded idle"),
    }
    match decide_recv(RecvOutcome::<u32>::Empty, 10) {
        (RecvStep::Wait(d), RecvState::Waiting) => assert_eq!(d, 10),
        _ => panic!("emptiness did not become a wait"),
    }
    match decide_recv(RecvOutcome::<u32>::Disconnected, 10) {
        (RecvStep::Ended, RecvState::Ended) => {}
        _ => panic!("disconnection did not end the sequence"),
    }
}

/// One producer, one consumer, an unbounded channel: every value sent is
/// delivered, exactly once, in the order sent.
#[test]
fn fifo_delivery_in_order() {
    let (tx, mut rx) = unbounded::<usize>(10);

    for i in 0..100usize {
        match tx.send_attempt(i) {
            SendStep::Sent => {}
            _ => panic!("unbounded send refused"),
        }
    }
    drop(tx);

    let mut collected: Vec<usize> = Vec::new();
    loop {
        match rx.recv_attempt() {
            RecvStep::Item(v) => collected.push(v),
            RecvStep::Wait(_) => panic!("drained channel asked for a retry"),
            RecvStep::Ended => break,
        }
    }

    assert_eq!(collected.len(), 100);
    let expected: Vec<usize> = (0..100usize).collect();
    assert_eq!(collected, expected);
}

/// Two producers merged into one channel: the consumer sees all of both
/// streams, and the relative order within each stream is preserved.
#[test]
fn merged_senders_preserve_source_order() {
    let (tx_a, mut rx) = unbounded::<i64>(10);
    let tx_b = tx_a.clone();
    assert_eq!(tx_b.delay, tx_a.delay);

    let a = [1i64, 2, 3, 4, 5];
    let b = [-1i64, -2, -3, -4, -5];
    for i in 0..5usize {
        match tx_a.send_attempt(a[i]) {
            SendStep::Sent => {}
            _ => panic!("unbounded send refused"),
        }
        match tx_b.send_attempt(b[i]) {
            SendStep::Sent => {}
            _ => panic!("unbounded send refused"),
        }
    }
    drop(tx_a);
    drop(tx_b);

    let mut collected: Vec<i64> = Vec::new();
    loop {
        match rx.recv_attempt() {
            RecvStep::Item(v) => collected.push(v),
            RecvStep::Wait(_) => panic!("drained channel asked for a retry"),
            RecvStep::Ended => break,
        }
    }

    assert_eq!(collected.len(), 10);
    let from_a: Vec<i64> = collected.iter().copied().filter(|v| *v > 0).collect();
    let from_b: Vec<i64> = collected.iter().copied().filter(|v| *v < 0).collect();
    assert_eq!(from_a, a.to_vec());
    assert_eq!(from_b, b.to_vec());
}

/// A bounded channel of capacity one under five sends with nothing
/// draining: every send after the first is refused as full at least
/// once, carries its message back intact, and mandates one full retry
/// interval, so the producer sits through at least four intervals.
#[test]
fn bounded_sends_mandate_retry_waits() {
    let (tx, mut rx) = bounded::<u32>(10, 1);

    let mut mandated_wait: u64 = 0;
    let mut blocked: u32 = 0;
    for v in 0..5u32 {
        match tx.send_attempt(v) {
            SendStep::Sent => {}
            SendStep::Retry(d, m) => {
                assert_eq!(d, 10);
                assert_eq!(m, v);
                blocked += 1;
                mandated_wait += d;
                // Completing the blocked send needs the queue drained;
                // until then every retry is refused again.
                match tx.send_attempt(m) {
                    SendStep::Retry(d2, m2) => {
                        assert_eq!(d2, 10);
                        assert_eq!(m2, v);
                    }
                    _ => panic!("full channel accepted a retry without a drain"),
                }
                match rx.recv_attempt() {
                    RecvStep::Item(_) => {}
                    _ => panic!("full channel had nothing to drain"),
                }
                match tx.send_attempt(v) {
                    SendStep::Sent => {}
                    _ => panic!("drained channel refused the retry"),
                }
            }
            SendStep::Rejected(_, _) => panic!("connected channel reported disconnection"),
        }
    }

    assert_eq!(blocked, 4);
    assert_eq!(mandated_wait, 40);
    assert!(mandated_wait >= 4 * 10);
}

/// A consumer on a channel whose producers are all gone and whose queue
/// is empty ends immediately, without a retry, and stays ended.
#[test]
fn exhausted_receiver_ends_immediately() {
    let (tx, mut rx) = unbounded::<u8>(10);
    drop(tx);

    match rx.recv_attempt() {
        RecvStep::Ended => {}
        _ => panic!("exhausted channel did not end"),
    }
    match rx.recv_attempt() {
        RecvStep::Ended => {}
        _ => panic!("ended receiver came back to life"),
    }
}

/// A producer on a channel whose consumers are all gone is rejected with
/// the terminal disconnection error and gets the original message back,
/// unmodified.
#[test]
fn disconnected_send_returns_message() {
    let (tx, rx) = unbounded::<u64>(10);
    drop(rx);

    match tx.send_attempt(42) {
        SendStep::Rejected(m, e) => {
            assert_eq!(m, 42);
            assert_eq!(e, Error::Disconnected);
        }
        _ => panic!("send to a disconnected channel did not fail"),
    }
}

/// Transient emptiness never terminates the consumer: it asks for one
/// retry interval, and once the delay is reported elapsed and a message
/// has arrived, the pull yields it.
#[test]
fn empty_receiver_waits_and_retries() {
    let (tx, mut rx) = unbounded::<u16>(10);

    match rx.recv_attempt() {
        RecvStep::Wait(d) => assert_eq!(d, 10),
        _ => panic!("empty connected channel did not ask for a retry"),
    }

    rx.timer_elapsed();
    match tx.send_attempt(7) {
        SendStep::Sent => {}
        _ => panic!("unbounded send refused"),
    }
    match rx.recv_attempt() {
        RecvStep::Item(v) => assert_eq!(v, 7),
        _ => panic!("retry after the delay did not yield the message"),
    }
}
