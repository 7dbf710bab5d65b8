use std::sync::atomic::AtomicUsize;
use std::sync::atomic::Ordering;

use smart_channel::channel::FlushError;
use smart_channel::channel::RecvStep;
use smart_channel::channel::SmartMessagePayload;
use smart_channel::channel::SmartMessageSource;
use smart_channel::channel::TryRecvError;
use smart_channel::channel::smart_channel;

fn file_source(path: &str) -> SmartMessageSource {
    SmartMessageSource::File { path: String::from(path) }
}

#[test]
fn queued_bytes_track_sends_and_receives() {
    let (tx, rx) = smart_channel::<u64>(file_source("recording.rrd"));
    assert_eq!(tx.queue_bytes(), 0);

    tx.send(1).unwrap();
    tx.send(2).unwrap();
    tx.send(3).unwrap();
    // Each u64 message is accounted with eight bytes.
    assert_eq!(tx.queue_bytes(), 24);
    assert_eq!(tx.len(), 3);
    assert!(!tx.is_empty());

    let first = rx.try_recv().unwrap();
    assert!(matches!(first.payload, SmartMessagePayload::Msg(1)));
    assert_eq!(tx.queue_bytes(), 16);

    rx.try_recv().unwrap();
    rx.try_recv().unwrap();
    assert_eq!(tx.queue_bytes(), 0);
    assert!(tx.is_empty());
    assert!(matches!(rx.try_recv(), Err(TryRecvError::Empty)));
}

#[test]
fn failed_send_rolls_back_queued_bytes() {
    let (tx, rx) = smart_channel::<u64>(file_source("recording.rrd"));
    tx.send(7).unwrap();
    assert_eq!(tx.queue_bytes(), 8);

    drop(rx);

    // The receiving end is gone: the send fails, the message comes back
    // unconsumed, and the byte counter ends at its pre-call value.
    let err = tx.send(9).unwrap_err();
    assert_eq!(err.0, 9);
    assert_eq!(tx.queue_bytes(), 8);
}

#[test]
fn per_producer_fifo_with_interleaving() {
    let (tx_a, rx) = smart_channel::<u64>(file_source("a.rrd"));
    let tx_b = tx_a.clone_as(file_source("b.rrd"));

    tx_a.send(1).unwrap();
    tx_b.send(10).unwrap();
    tx_a.send(2).unwrap();
    tx_b.send(11).unwrap();
    tx_a.send(3).unwrap();

    let mut from_a = Vec::new();
    let mut from_b = Vec::new();
    while let Ok(msg) = rx.try_recv() {
        let path = match &*msg.source {
            SmartMessageSource::File { path } => path.clone(),
            _ => panic!("unexpected source"),
        };
        if let SmartMessagePayload::Msg(value) = msg.payload {
            if path == "a.rrd" {
                from_a.push(value);
            } else {
                from_b.push(value);
            }
        }
    }

    // Each producer's messages arrive in that producer's send order.
    assert_eq!(from_a, vec![1, 2, 3]);
    assert_eq!(from_b, vec![10, 11]);
}

#[test]
fn quit_isolation_between_clones() {
    let (tx_a, rx) = smart_channel::<u64>(file_source("a.rrd"));
    let tx_b = tx_a.clone_as(file_source("b.rrd"));

    assert!(tx_a.quit(Some(String::from("source a is done"))).is_ok());
    // The other clone keeps working after a quit on the first one.
    tx_b.send(42).unwrap();

    let quit = rx.try_recv().unwrap();
    match (&*quit.source, &quit.payload) {
        (SmartMessageSource::File { path }, SmartMessagePayload::Quit(Some(reason))) => {
            assert_eq!(path, "a.rrd");
            assert_eq!(reason, "source a is done");
        }
        _ => panic!("expected the quit envelope of source a"),
    }

    let msg = rx.try_recv().unwrap();
    match (&*msg.source, &msg.payload) {
        (SmartMessageSource::File { path }, SmartMessagePayload::Msg(value)) => {
            assert_eq!(path, "b.rrd");
            assert_eq!(*value, 42);
        }
        _ => panic!("expected the message of source b"),
    }
}

#[test]
fn flush_blocking_waits_for_prior_envelopes() {
    let (tx, rx) = smart_channel::<u64>(file_source("recording.rrd"));
    tx.send(1).unwrap();
    tx.send(2).unwrap();
    tx.send(3).unwrap();

    let drained = AtomicUsize::new(0);
    crossbeam::scope(|scope| {
        scope.spawn(|_| {
            loop {
                match rx.recv_step() {
                    RecvStep::Message(_) => {
                        drained.fetch_add(1, Ordering::SeqCst);
                    }
                    RecvStep::FlushHandled => break,
                    RecvStep::Disconnected => break,
                }
            }
        });

        // The barrier's signal fires only after the three envelopes sent
        // before it have been drained.
        tx.flush_blocking(5_000_000_000).unwrap();
        assert_eq!(drained.load(Ordering::SeqCst), 3);
    })
    .unwrap();
}

#[test]
fn flush_blocking_times_out_without_consumer() {
    let (tx, rx) = smart_channel::<u64>(file_source("recording.rrd"));
    tx.send(1).unwrap();
    // The receiver exists but nobody drains: the barrier is never reached.
    let err = tx.flush_blocking(50_000_000).unwrap_err();
    assert_eq!(err, FlushError::Timeout);
    drop(rx);
}

#[test]
fn flush_blocking_reports_closed_channel() {
    let (tx, rx) = smart_channel::<u64>(file_source("recording.rrd"));
    drop(rx);
    let err = tx.flush_blocking(50_000_000).unwrap_err();
    assert_eq!(err, FlushError::Closed);
}

#[test]
fn receiver_reports_disconnect_after_drain() {
    let (tx, rx) = smart_channel::<u64>(file_source("recording.rrd"));
    tx.send(5).unwrap();
    drop(tx);

    assert!(rx.try_recv().is_ok());
    assert!(matches!(rx.try_recv(), Err(TryRecvError::Disconnected)));
}

#[test]
fn latency_is_published_on_drain() {
    let (tx, rx) = smart_channel::<u64>(file_source("recording.rrd"));
    tx.send(1).unwrap();
    let before = tx.latency_nanos();
    assert_eq!(before, 0);
    rx.try_recv().unwrap();
    // A latency reading was published; with a monotonic clock it can be
    // any value, including zero, so only the plumbing is checked here.
    let _ = tx.latency_nanos();
}

#[test]
fn send_at_bypasses_byte_accounting() {
    let (tx, rx) = smart_channel::<u64>(file_source("recording.rrd"));
    let source = std::sync::Arc::new(file_source("forwarded.rrd"));
    assert!(tx.send_at(web_time::Instant::now(), source, SmartMessagePayload::Msg(5)).is_ok());

    // Forwarding as-is does not touch the shared byte counter.
    assert_eq!(tx.queue_bytes(), 0);
    let msg = rx.try_recv().unwrap();
    assert!(matches!(msg.payload, SmartMessagePayload::Msg(5)));
}

#[test]
fn send_at_with_size_tracks_the_given_size() {
    let (tx, rx) = smart_channel::<u64>(file_source("recording.rrd"));
    let source = std::sync::Arc::new(file_source("forwarded.rrd"));
    let sent = tx.send_at_with_size(web_time::Instant::now(), source, SmartMessagePayload::Msg(5), 123);
    assert!(sent.is_ok());
    assert_eq!(tx.queue_bytes(), 123);
    drop(rx);
}

#[test]
fn send_tracking_accounts_like_send() {
    let (tx, rx) = smart_channel::<u64>(file_source("recording.rrd"));
    tx.send_tracking(5).unwrap();
    assert_eq!(tx.queue_bytes(), 8);

    let source = std::sync::Arc::new(file_source("forwarded.rrd"));
    assert!(tx.send_at_tracking(web_time::Instant::now(), source, SmartMessagePayload::Msg(6)).is_ok());
    assert_eq!(tx.queue_bytes(), 16);
    drop(rx);
}

#[test]
fn recv_step_reports_disconnect() {
    let (tx, rx) = smart_channel::<u64>(file_source("recording.rrd"));
    tx.send(1).unwrap();
    drop(tx);
    assert!(matches!(rx.recv_step(), RecvStep::Message(_)));
    assert!(matches!(rx.recv_step(), RecvStep::Disconnected));
}

#[test]
fn sender_knows_its_source_kind() {
    let (tx, _rx) = smart_channel::<u64>(file_source("recording.rrd"));
    assert!(!tx.source_is_unknown());
    let unknown = tx.clone_as(SmartMessageSource::Unknown);
    assert!(unknown.source_is_unknown());
}
