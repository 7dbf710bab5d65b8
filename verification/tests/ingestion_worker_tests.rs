use std::sync::Arc;

use smart_channel::channel::SmartMessageSource;
use smart_channel::ingestion_worker::Decoder;
use smart_channel::ingestion_worker::IngestionWorker;
use smart_channel::ingestion_worker::RawU64Decoder;
use smart_channel::ingestion_worker::StoreId;
use smart_channel::ingestion_worker::StoreKind;
use smart_channel::ingestion_worker::process_decoded;
use smart_channel::ingestion_worker::process_work_item;
use smart_channel::ingestion_worker::worker_queues;

fn store_id(id: &str) -> StoreId {
    StoreId { kind: StoreKind::Recording, id: String::from(id) }
}

fn source() -> Arc<SmartMessageSource> {
    Arc::new(SmartMessageSource::File { path: String::from("recording.rrd") })
}

#[test]
fn decoder_accepts_exactly_eight_bytes() {
    let decoder = RawU64Decoder;
    assert_eq!(decoder.decode(&42u64.to_le_bytes().to_vec()).unwrap(), 42);
    assert_eq!(decoder.decode(&0u64.to_le_bytes().to_vec()).unwrap(), 0);
}

#[test]
fn decoder_rejects_other_lengths() {
    let decoder = RawU64Decoder;
    let err = decoder.decode(&vec![1, 2, 3]).unwrap_err();
    assert!(!err.reason.is_empty());
    assert!(decoder.decode(&Vec::new()).is_err());
}

#[test]
fn process_decoded_keeps_routing_metadata() {
    let chunk = process_decoded(store_id("store"), source(), true, Some(7u64)).unwrap();
    assert_eq!(chunk.store_id.id, "store");
    assert_eq!(chunk.store_id.kind, StoreKind::Recording);
    assert_eq!(*chunk.chunk, 7);
    assert!(chunk.msg_will_add_new_store);

    let none = process_decoded::<u64>(store_id("store"), source(), false, None);
    assert!(none.is_none());
}

#[test]
fn backpressure_blocks_at_capacity() {
    let ((in_tx, in_rx), (_out_tx, out_rx)) = worker_queues::<Vec<u8>, u64>(3);
    let worker = IngestionWorker::from_parts(in_tx, out_rx);

    // Three submissions fill the bounded queue without blocking.
    for i in 0..3u64 {
        worker.submit_arrow_msg_blocking(store_id("store"), i.to_le_bytes().to_vec(), source(), false);
    }
    assert_eq!(in_rx.len(), 3);

    let (done_tx, done_rx) = crossbeam::channel::bounded::<()>(1);
    crossbeam::scope(|scope| {
        scope.spawn(|_| {
            // The fourth submission blocks until one item is drained.
            worker.submit_arrow_msg_blocking(
                store_id("store"),
                3u64.to_le_bytes().to_vec(),
                source(),
                false,
            );
            done_tx.send(()).unwrap();
        });

        // Still blocked: nothing was drained yet.
        assert!(done_rx.recv_timeout(std::time::Duration::from_millis(300)).is_err());

        // Draining one item unblocks the submitter.
        let _ = in_rx.recv().unwrap();
        assert!(done_rx.recv_timeout(std::time::Duration::from_secs(10)).is_ok());
    })
    .unwrap();
}

#[test]
fn decode_failure_is_recovered_locally() {
    let ((in_tx, in_rx), (out_tx, out_rx)) = worker_queues::<Vec<u8>, u64>(16);
    let worker = IngestionWorker::from_parts(in_tx, out_rx);

    crossbeam::scope(|scope| {
        scope.spawn(move |_| {
            // The worker loop: decode each item, push what succeeds, drop
            // what fails, exit when the input queue closes.
            while let Ok(item) = in_rx.recv() {
                if let Some(chunk) = process_work_item(&RawU64Decoder, item) {
                    if out_tx.send(chunk).is_err() {
                        break;
                    }
                }
            }
        });

        // One item that deterministically fails decode, one that succeeds.
        worker.submit_arrow_msg_blocking(store_id("store"), vec![1, 2, 3], source(), false);
        worker.submit_arrow_msg_blocking(
            store_id("store"),
            42u64.to_le_bytes().to_vec(),
            source(),
            false,
        );

        // Exactly one processed chunk comes out, and it is the good one.
        let mut results = Vec::new();
        while results.is_empty() {
            results = worker.poll_processed_chunks();
        }
        assert_eq!(results.len(), 1);
        assert_eq!(*results[0].chunk, 42);

        // The worker stayed alive and accepts further submissions.
        worker.submit_arrow_msg_blocking(
            store_id("store"),
            7u64.to_le_bytes().to_vec(),
            source(),
            false,
        );
        let mut more = Vec::new();
        while more.is_empty() {
            more = worker.poll_processed_chunks();
        }
        assert_eq!(more.len(), 1);
        assert_eq!(*more[0].chunk, 7);

        drop(worker);
    })
    .unwrap();
}
