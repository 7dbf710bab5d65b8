//! Background ingestion pipeline with bounded backpressure.
//!
//! Raw messages are submitted through a bounded queue and decoded off the
//! caller's thread; decoded records come back through an unbounded queue
//! that the caller drains without blocking. A fast producer is throttled to
//! the worker's decode rate by the bounded queue instead of growing memory
//! without bound, while the polling side is never throttled. A message that
//! fails to decode is dropped and the pipeline carries on: one bad record
//! must not halt ingestion.
//!
//! The worker's dedicated thread is the embedder's to spawn: it repeatedly
//! takes a work item from the input queue, runs [`process_work_item`] (or
//! its own decode step followed by [`process_decoded`]) and pushes any
//! result to the output queue, exiting once the input queue is closed and
//! drained or the output queue's receiver is gone.

use vstd::prelude::*;

use crate::channel::SmartMessageSource;
use crate::transport::TryRecvResult;
use crate::transport::channel_bounded;
use crate::transport::channel_receiver_len;
use crate::transport::channel_send;
use crate::transport::channel_try_recv;
use crate::transport::channel_unbounded;

verus! {

/// Maximum number of pending work items before backpressure kicks in.
/// This prevents unbounded memory growth while allowing sufficient
/// buffering.
pub const WORK_QUEUE_CAPACITY: usize = 2000;

/// Which kind of store a record belongs to.
#[derive(Clone, Copy, Debug, PartialEq, Eq, Structural)]
pub enum StoreKind {
    /// A recording of logged data.
    Recording,
    /// The viewer's own layout and configuration store.
    Blueprint,
}

/// Identifies the destination store of a work item.
#[derive(Clone, Debug)]
pub struct StoreId {
    pub kind: StoreKind,
    pub id: String,
}

/// Why a raw message failed to decode.
#[derive(Clone, Debug)]
pub struct DecodeError {
    pub reason: String,
}

/// The decode collaborator: turns a raw message into a structured record.
///
/// Decoding is deterministic: whether a raw message decodes, and to what,
/// is a function of the message alone, stated by `spec_decode`; `decode`
/// must agree with it.
pub trait Decoder<R, D> {
    /// What the raw message decodes to, if anything.
    spec fn spec_decode(&self, raw: R) -> Option<D>;

    /// Decodes a raw message, or says why it cannot be decoded.
    fn decode(&self, raw: &R) -> (r: Result<D, DecodeError>)
        ensures
            r matches Ok(d) ==> self.spec_decode(*raw) == Some(d),
            r is Err ==> self.spec_decode(*raw) is None,
    ;
}

/// Work item to be processed by the ingestion worker.
pub struct WorkItem<R> {
    pub store_id: StoreId,
    pub arrow_msg: R,
    pub channel_source: std::sync::Arc<SmartMessageSource>,
    pub msg_will_add_new_store: bool,
}

/// Result of processing a work item: the decoded record together with the
/// routing metadata of the item it came from, for downstream correlation.
pub struct ProcessedChunk<D> {
    pub store_id: StoreId,
    pub chunk: std::sync::Arc<D>,
    pub channel_source: std::sync::Arc<SmartMessageSource>,
    pub msg_will_add_new_store: bool,
}

/// The decision step of the worker after the decode collaborator has
/// spoken: a decoded record is wrapped with its routing metadata, a failed
/// decode is dropped (non-fatal to the pipeline).
pub fn process_decoded<D>(
    store_id: StoreId,
    channel_source: std::sync::Arc<SmartMessageSource>,
    msg_will_add_new_store: bool,
    decoded: Option<D>,
) -> (r: Option<ProcessedChunk<D>>)
    ensures
        decoded matches Some(d) ==> r matches Some(p) && p.store_id == store_id && p.chunk == d
            && p.channel_source == channel_source && p.msg_will_add_new_store
            == msg_will_add_new_store,
        decoded is None ==> r is None,
{
    match decoded {
        Some(d) => Some(
            ProcessedChunk {
                store_id,
                chunk: std::sync::Arc::new(d),
                channel_source,
                msg_will_add_new_store,
            },
        ),
        None => None,
    }
}

/// Processes one work item: decodes the raw message and, on success, wraps
/// the record with the item's routing metadata. A decode failure yields
/// `None`: the item is dropped and the worker stays alive.
pub fn process_work_item<R, D, Dec: Decoder<R, D>>(decoder: &Dec, item: WorkItem<R>) -> (r: Option<
    ProcessedChunk<D>,
>)
    ensures
        decoder.spec_decode(item.arrow_msg) matches Some(d) ==> r matches Some(p) && p.store_id
            == item.store_id && p.chunk == d && p.channel_source == item.channel_source
            && p.msg_will_add_new_store == item.msg_will_add_new_store,
        decoder.spec_decode(item.arrow_msg) is None ==> r is None,
{
    let WorkItem { store_id, arrow_msg, channel_source, msg_will_add_new_store } = item;
    let decoded = match decoder.decode(&arrow_msg) {
        Ok(d) => Some(d),
        Err(_) => None,
    };
    process_decoded(store_id, channel_source, msg_will_add_new_store, decoded)
}

/// The caller-facing handle of the ingestion pipeline: the submitting end
/// of the bounded input queue and the polling end of the unbounded output
/// queue.
#[verifier::reject_recursive_types(R)]
#[verifier::reject_recursive_types(D)]
pub struct IngestionWorker<R, D> {
    input_tx: crossbeam::channel::Sender<WorkItem<R>>,
    output_rx: crossbeam::channel::Receiver<ProcessedChunk<D>>,
}

/// Creates the two queues of one ingestion pipeline: a bounded input queue
/// of the given capacity and an unbounded output queue. The embedder hands
/// the input receiver and the output sender to the worker thread and the
/// other two ends to [`IngestionWorker::from_parts`].
pub fn worker_queues<R, D>(capacity: usize) -> ((
    crossbeam::channel::Sender<WorkItem<R>>,
    crossbeam::channel::Receiver<WorkItem<R>>,
), (
    crossbeam::channel::Sender<ProcessedChunk<D>>,
    crossbeam::channel::Receiver<ProcessedChunk<D>>,
)) {
    (channel_bounded(capacity), channel_unbounded())
}

impl<R, D> IngestionWorker<R, D> {
    /// Assembles the handle from the caller-side queue ends.
    pub fn from_parts(
        input_tx: crossbeam::channel::Sender<WorkItem<R>>,
        output_rx: crossbeam::channel::Receiver<ProcessedChunk<D>>,
    ) -> Self {
        IngestionWorker { input_tx, output_rx }
    }

    /// Submits a raw message for processing, blocking while the bounded
    /// input queue is full: this is the backpressure that throttles a fast
    /// producer to the worker's decode rate. If the worker is gone the
    /// item is dropped.
    pub fn submit_arrow_msg_blocking(
        &self,
        store_id: StoreId,
        arrow_msg: R,
        channel_source: std::sync::Arc<SmartMessageSource>,
        msg_will_add_new_store: bool,
    ) {
        let work_item = WorkItem { store_id, arrow_msg, channel_source, msg_will_add_new_store };

        // Block until we can send; a pipeline whose worker has exited
        // cannot accept the item, and dropping it is all that is left.
        let _ = channel_send(&self.input_tx, work_item);
    }

    /// Drains every processed chunk that is ready right now, without
    /// blocking; the result is empty if none are. This is the only way
    /// results leave the worker, sized for a caller that polls once per
    /// work cycle.
    pub fn poll_processed_chunks(&self) -> Vec<ProcessedChunk<D>> {
        let mut chunks: Vec<ProcessedChunk<D>> = Vec::new();
        let ready = channel_receiver_len(&self.output_rx);
        let mut i: usize = 0;
        while i < ready
            decreases ready - i,
        {
            match channel_try_recv(&self.output_rx) {
                TryRecvResult::Received(chunk) => {
                    chunks.push(chunk);
                },
                TryRecvResult::Empty => {
                    return chunks;
                },
                TryRecvResult::Disconnected => {
                    return chunks;
                },
            }
            i = i + 1;
        }
        chunks
    }
}

/// A decoder for records serialized as exactly eight little-endian bytes;
/// any other length fails to decode. Used where the pipeline is exercised
/// without an external decode collaborator.
pub struct RawU64Decoder;

impl Decoder<Vec<u8>, u64> for RawU64Decoder {
    open spec fn spec_decode(&self, raw: Vec<u8>) -> Option<u64> {
        if raw@.len() == 8 {
            Some(vstd::bytes::spec_u64_from_le_bytes(raw@))
        } else {
            None
        }
    }

    fn decode(&self, raw: &Vec<u8>) -> (r: Result<u64, DecodeError>) {
        if raw.len() == 8 {
            Ok(vstd::bytes::u64_from_le_bytes(raw.as_slice()))
        } else {
            Err(DecodeError { reason: "expected exactly eight bytes".to_string() })
        }
    }
}

} // verus!
