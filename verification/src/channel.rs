//! A multi-producer smart channel: envelopes tagged with provenance and a
//! send timestamp, shared byte-level backpressure accounting, a blocking
//! flush barrier, and a per-producer quit signal.
//!
//! Any number of `Sender` clones feed one `Receiver` through an unbounded
//! `crossbeam` queue. Every successful tracked send adds the envelope's
//! size to a shared atomic byte counter before the insertion attempt, and a
//! failed send subtracts the same amount again, so the counter returns to
//! its pre-call value exactly. The sequential meaning of these steps, and
//! the ordering laws of the queue, are stated and proved in [`crate::flow`];
//! the shared counters themselves are racy by design and are read through
//! contracts that promise nothing about concurrent peers.

use vstd::prelude::*;

use crate::transport::RecvTimeoutResult;
use crate::transport::TryRecvResult;
use crate::transport::arc_clone;
use crate::transport::channel_bounded;
use crate::transport::channel_is_empty;
use crate::transport::channel_len;
use crate::transport::channel_recv;
use crate::transport::channel_receiver_len;
use crate::transport::channel_recv_timeout;
use crate::transport::channel_send;
use crate::transport::channel_try_recv;
use crate::transport::channel_unbounded;
use crate::transport::instant_elapsed_nanos;
use crate::transport::instant_now;

verus! {

/// A type whose transport size can be measured, so that the channel can
/// account for queued bytes. The executable measurement must agree with the
/// specification-level size, so that the receiver's decrement matches the
/// sender's increment for the same envelope.
pub trait SizeBytes {
    /// The measured size, as a specification-level function of the value.
    spec fn spec_size_bytes(&self) -> u64;

    /// Measures the size of the value in bytes.
    fn total_size_bytes(&self) -> (r: u64)
        ensures
            r == self.spec_size_bytes(),
    ;
}

impl SizeBytes for u64 {
    open spec fn spec_size_bytes(&self) -> u64 {
        8
    }

    fn total_size_bytes(&self) -> (r: u64) {
        8
    }
}

impl SizeBytes for Vec<u8> {
    open spec fn spec_size_bytes(&self) -> u64 {
        self@.len() as u64
    }

    fn total_size_bytes(&self) -> (r: u64) {
        self.len() as u64
    }
}

/// Where a lineage of messages comes from. `Unknown` exists as a default
/// before a real source is attached; an envelope placed on the transport
/// must never carry it.
#[derive(Clone, Debug)]
pub enum SmartMessageSource {
    /// No source attached yet.
    Unknown,
    /// Loaded from a file on disk.
    File { path: String },
    /// Streamed in from a network peer.
    NetworkPeer { url: String },
    /// Produced in-process by the logging SDK.
    Sdk,
}

/// The error returned when the receiving end of the channel is gone; the
/// unsent value comes back to the caller.
#[derive(Debug)]
pub struct SendError<T>(pub T);

/// Why a blocking flush did not complete.
#[derive(Clone, Copy, Debug, PartialEq, Eq, Structural)]
pub enum FlushError {
    /// The receiving end of the channel is gone.
    Closed,
    /// The flush barrier was not drained within the allowed wait.
    Timeout,
}

/// Why a non-blocking receive returned no envelope.
#[derive(Clone, Copy, Debug, PartialEq, Eq, Structural)]
pub enum TryRecvError {
    /// No envelope is queued right now.
    Empty,
    /// All senders are gone and the queue is drained.
    Disconnected,
}

/// A single-use completion signal carried inside a flush barrier; firing it
/// releases the thread that is blocked in `flush_blocking`.
pub struct FlushDoneSignal {
    tx: crossbeam::channel::Sender<()>,
}

impl FlushDoneSignal {
    /// Releases the flushing thread. Called by the receiver once every
    /// envelope enqueued before the barrier has been drained.
    pub fn fire(self) {
        let _ = channel_send(&self.tx, ());
    }
}

/// What an envelope carries.
pub enum SmartMessagePayload<T> {
    /// A domain value.
    Msg(T),
    /// A flush barrier; the signal is fired exactly once, by the receiver,
    /// after all envelopes enqueued before the barrier have been drained.
    Flush { on_flush_done: FlushDoneSignal },
    /// A terminal signal for one producer lineage, with an optional error
    /// message saying why the producer left.
    Quit(Option<String>),
}

/// The transport unit: a payload with a send timestamp and a shared
/// provenance tag.
pub struct SmartMessage<T> {
    /// When the envelope was created.
    pub time: web_time::Instant,
    /// Where the envelope's lineage comes from; shared with the `Sender`
    /// that created it.
    pub source: std::sync::Arc<SmartMessageSource>,
    /// What the envelope carries.
    pub payload: SmartMessagePayload<T>,
}

impl<T: SizeBytes> SmartMessage<T> {
    /// The accounted size of this envelope: the payload's measured size for
    /// a domain message, zero for control envelopes.
    pub open spec fn spec_size_bytes(&self) -> u64 {
        match self.payload {
            SmartMessagePayload::Msg(msg) => msg.spec_size_bytes(),
            SmartMessagePayload::Flush { .. } => 0,
            SmartMessagePayload::Quit(_) => 0,
        }
    }

    /// Measures the accounted size of this envelope.
    pub fn total_size_bytes(&self) -> (r: u64)
        ensures
            r == self.spec_size_bytes(),
    {
        match &self.payload {
            SmartMessagePayload::Msg(msg) => msg.total_size_bytes(),
            SmartMessagePayload::Flush { .. } => 0,
            SmartMessagePayload::Quit(_) => 0,
        }
    }
}

/// Counters shared by every `Sender` clone and the `Receiver` of one
/// channel. Both are written with single atomic operations only; readers
/// may observe a momentarily stale value, but every increment by a
/// successful send is matched by exactly one decrement, on receive or on
/// the failing send's own rollback.
pub struct SharedStats {
    /// Total accounted bytes currently queued in the channel.
    pub queue_bytes: core::sync::atomic::AtomicU64,
    /// Nanoseconds between send and receive of the envelope drained last.
    pub latency_nanos: core::sync::atomic::AtomicU64,
}

impl SharedStats {
    /// Fresh counters, all zero.
    pub fn new() -> Self {
        SharedStats {
            queue_bytes: core::sync::atomic::AtomicU64::new(0),
            latency_nanos: core::sync::atomic::AtomicU64::new(0),
        }
    }
}

/// The producer-facing handle of the channel. Cloneable; clones share the
/// transport and the statistics, and `clone_as` attaches a new provenance.
#[derive(Clone)]
#[verifier::reject_recursive_types(T)]
pub struct Sender<T> {
    tx: crossbeam::channel::Sender<SmartMessage<T>>,
    source: std::sync::Arc<SmartMessageSource>,
    stats: std::sync::Arc<SharedStats>,
}

impl<T> Sender<T> {
    /// The provenance this handle stamps onto every envelope it sends.
    pub closed spec fn spec_source(&self) -> SmartMessageSource {
        *self.source
    }

    pub(crate) fn new(
        tx: crossbeam::channel::Sender<SmartMessage<T>>,
        source: std::sync::Arc<SmartMessageSource>,
        stats: std::sync::Arc<SharedStats>,
    ) -> (r: Self)
        ensures
            r.spec_source() == *source,
    {
        Sender { tx, source, stats }
    }

    /// Does this handle still carry the `Unknown` placeholder source? Such
    /// a handle must not send: every envelope on the transport carries a
    /// real provenance.
    pub fn source_is_unknown(&self) -> (r: bool)
        ensures
            r == (self.spec_source() is Unknown),
    {
        match &*self.source {
            SmartMessageSource::Unknown => true,
            _ => false,
        }
    }

    /// Clones the sender with an updated source.
    pub fn clone_as(&self, source: SmartMessageSource) -> (r: Self)
        ensures
            r.spec_source() == source,
    {
        Sender {
            tx: self.tx.clone(),
            source: std::sync::Arc::new(source),
            stats: arc_clone(&self.stats),
        }
    }

    /// Forwards a message as-is, without touching the size accounting.
    ///
    /// On failure the payload comes back to the caller unconsumed.
    pub fn send_at(
        &self,
        time: web_time::Instant,
        source: std::sync::Arc<SmartMessageSource>,
        payload: SmartMessagePayload<T>,
    ) -> (r: Result<(), SendError<SmartMessagePayload<T>>>)
        requires
            !(*source is Unknown),
        ensures
            r matches Err(e) ==> e.0 == payload,
    {
        match channel_send(&self.tx, SmartMessage { time, source, payload }) {
            Ok(()) => Ok(()),
            Err(msg) => Err(SendError(msg.payload)),
        }
    }

    /// Forwards a message as-is, tracking the given size in bytes.
    ///
    /// The shared byte counter is increased by `size_bytes` *before* the
    /// insertion attempt; if the transport refuses the envelope, the same
    /// amount is subtracted again, so the counter ends at its pre-call
    /// value, and the payload comes back to the caller unconsumed.
    pub fn send_at_with_size(
        &self,
        time: web_time::Instant,
        source: std::sync::Arc<SmartMessageSource>,
        payload: SmartMessagePayload<T>,
        size_bytes: u64,
    ) -> (r: Result<(), SendError<SmartMessagePayload<T>>>)
        requires
            !(*source is Unknown),
        ensures
            r matches Err(e) ==> e.0 == payload,
    {
        // Track the size before sending.
        self.stats.queue_bytes.fetch_add(size_bytes, core::sync::atomic::Ordering::Relaxed);

        match channel_send(&self.tx, SmartMessage { time, source, payload }) {
            Ok(()) => Ok(()),
            Err(msg) => {
                // The send failed: undo the size tracking.
                self.stats.queue_bytes.fetch_sub(
                    size_bytes,
                    core::sync::atomic::Ordering::Relaxed,
                );
                Err(SendError(msg.payload))
            },
        }
    }

    /// Blocks until all envelopes sent before this call have been drained
    /// by the receiver, or until `timeout_nanos` elapse.
    ///
    /// A flush barrier is enqueued behind every envelope already sent; the
    /// receiver fires its completion signal only once those are gone from
    /// the transport.
    pub fn flush_blocking(&self, timeout_nanos: u64) -> (r: Result<(), FlushError>) {
        let (signal_tx, signal_rx) = channel_bounded::<()>(1);
        let sent = channel_send(
            &self.tx,
            SmartMessage {
                time: instant_now(),
                source: arc_clone(&self.source),
                payload: SmartMessagePayload::Flush {
                    on_flush_done: FlushDoneSignal { tx: signal_tx },
                },
            },
        );
        if sent.is_err() {
            return Err(FlushError::Closed);
        }
        match channel_recv_timeout(&signal_rx, timeout_nanos) {
            RecvTimeoutResult::Received(()) => Ok(()),
            RecvTimeoutResult::Timeout => Err(FlushError::Timeout),
            RecvTimeoutResult::Disconnected => Err(FlushError::Closed),
        }
    }

    /// Used to indicate that this producer lineage has left.
    ///
    /// Sends a terminal envelope so the receiving end knows this source is
    /// done, and why, if an error message is given. The transport itself is
    /// not closed: other clones with different provenance remain valid.
    /// Using this handle after `quit` is undefined; the receiving end is
    /// free to silently drop anything sent afterwards.
    pub fn quit(&self, err: Option<String>) -> (r: Result<(), SendError<SmartMessage<T>>>)
        requires
            !(self.spec_source() is Unknown),
        ensures
            r matches Err(e) ==> e.0.payload == SmartMessagePayload::<T>::Quit(err),
    {
        match channel_send(
            &self.tx,
            SmartMessage {
                time: instant_now(),
                source: arc_clone(&self.source),
                payload: SmartMessagePayload::Quit(err),
            },
        ) {
            Ok(()) => Ok(()),
            Err(msg) => Err(SendError(msg)),
        }
    }

    /// Is the channel currently empty of messages? A momentary reading;
    /// concurrent peers may change it at any time.
    pub fn is_empty(&self) -> bool {
        channel_is_empty(&self.tx)
    }

    /// Number of messages in the channel right now. A momentary reading.
    pub fn len(&self) -> usize {
        channel_len(&self.tx)
    }

    /// Latest known latency from sending an envelope to receiving it, in
    /// nanoseconds; the value most recently published by the receiver.
    pub fn latency_nanos(&self) -> u64 {
        self.stats.latency_nanos.load(core::sync::atomic::Ordering::Relaxed)
    }

    /// Total accounted bytes currently queued in the channel. Only sends
    /// that track a size contribute; for other envelopes this stays 0.
    pub fn queue_bytes(&self) -> u64 {
        self.stats.queue_bytes.load(core::sync::atomic::Ordering::Relaxed)
    }
}

impl<T: SizeBytes> Sender<T> {
    /// Sends a domain message, measuring and tracking its size.
    ///
    /// On failure the message comes back to the caller unconsumed and the
    /// byte counter is rolled back to its pre-call value.
    pub fn send(&self, msg: T) -> (r: Result<(), SendError<T>>)
        requires
            !(self.spec_source() is Unknown),
        ensures
            r matches Err(e) ==> e.0 == msg,
    {
        let smart_msg = SmartMessage {
            time: instant_now(),
            source: arc_clone(&self.source),
            payload: SmartMessagePayload::Msg(msg),
        };
        let size = smart_msg.total_size_bytes();
        let SmartMessage { time, source, payload } = smart_msg;

        match self.send_at_with_size(time, source, payload, size) {
            Ok(()) => Ok(()),
            Err(SendError(returned)) => match returned {
                SmartMessagePayload::Msg(msg) => Err(SendError(msg)),
                SmartMessagePayload::Flush { .. } => vstd::pervasive::unreached(),
                SmartMessagePayload::Quit(_) => vstd::pervasive::unreached(),
            },
        }
    }

    /// Sends a domain message, measuring and tracking its size. Identical
    /// to `send`; kept for callers that spell the tracking out.
    pub fn send_tracking(&self, msg: T) -> (r: Result<(), SendError<T>>)
        requires
            !(self.spec_source() is Unknown),
        ensures
            r matches Err(e) ==> e.0 == msg,
    {
        self.send(msg)
    }

    /// Forwards a message as-is, measuring and tracking its size.
    pub fn send_at_tracking(
        &self,
        time: web_time::Instant,
        source: std::sync::Arc<SmartMessageSource>,
        payload: SmartMessagePayload<T>,
    ) -> (r: Result<(), SendError<SmartMessagePayload<T>>>)
        requires
            !(*source is Unknown),
        ensures
            r matches Err(e) ==> e.0 == payload,
    {
        let smart_msg = SmartMessage { time, source, payload };
        let size = smart_msg.total_size_bytes();
        let SmartMessage { time, source, payload } = smart_msg;
        self.send_at_with_size(time, source, payload, size)
    }
}

/// What one blocking drain step produced.
pub enum RecvStep<T> {
    /// An envelope for the caller; never a flush barrier.
    Message(SmartMessage<T>),
    /// A flush barrier was drained and its signal fired; call again.
    FlushHandled,
    /// Every sender is gone and the queue is drained.
    Disconnected,
}

/// The consumer-facing handle: drains envelopes, maintains the shared
/// statistics, and special-cases flush barriers. At most one receiver
/// exists per channel, so the drain order is linear.
#[verifier::reject_recursive_types(T)]
pub struct Receiver<T> {
    rx: crossbeam::channel::Receiver<SmartMessage<T>>,
    stats: std::sync::Arc<SharedStats>,
}

impl<T: SizeBytes> Receiver<T> {
    /// Drains one envelope without blocking.
    ///
    /// For every drained envelope the shared byte counter goes down by the
    /// envelope's measured size and the latency reading is replaced. A
    /// flush barrier is never handed to the caller: its signal is fired
    /// here, after every envelope before it has been drained, and draining
    /// continues. A quit envelope *is* handed to the caller, so the caller
    /// can attribute the departure to its source.
    pub fn try_recv(&self) -> (r: Result<SmartMessage<T>, TryRecvError>)
        ensures
            r matches Ok(m) ==> !(m.payload is Flush),
    {
        // Swallowed flush barriers do not count as drained envelopes, so
        // keep looking for as many envelopes as were queued a moment ago.
        let mut budget = channel_receiver_len(&self.rx);
        loop
            decreases budget,
        {
            match channel_try_recv(&self.rx) {
                TryRecvResult::Empty => {
                    return Err(TryRecvError::Empty);
                },
                TryRecvResult::Disconnected => {
                    return Err(TryRecvError::Disconnected);
                },
                TryRecvResult::Received(msg) => {
                    match self.drain_one(msg) {
                        Some(msg) => {
                            return Ok(msg);
                        },
                        None => {
                            if budget == 0 {
                                return Err(TryRecvError::Empty);
                            }
                            budget = budget - 1;
                        },
                    }
                },
            }
        }
    }

    /// Drains exactly one envelope, blocking until one arrives.
    ///
    /// A flush barrier is reported as `FlushHandled` after its signal has
    /// been fired here; the caller simply calls again. Every other envelope
    /// is handed out, and `Disconnected` says that every sender is gone and
    /// the queue is drained.
    pub fn recv_step(&self) -> (r: RecvStep<T>)
        ensures
            r matches RecvStep::Message(m) ==> !(m.payload is Flush),
    {
        match channel_recv(&self.rx) {
            None => RecvStep::Disconnected,
            Some(msg) => {
                match self.drain_one(msg) {
                    Some(msg) => RecvStep::Message(msg),
                    None => RecvStep::FlushHandled,
                }
            },
        }
    }

    /// The per-envelope drain step: updates both shared counters, fires and
    /// swallows flush barriers, and passes every other envelope on.
    fn drain_one(&self, msg: SmartMessage<T>) -> (r: Option<SmartMessage<T>>)
        ensures
            r matches Some(m) ==> !(m.payload is Flush),
            r matches Some(m) ==> m == msg,
            r is None <==> msg.payload is Flush,
    {
        let size = msg.total_size_bytes();
        self.stats.queue_bytes.fetch_sub(size, core::sync::atomic::Ordering::Relaxed);
        let latency = instant_elapsed_nanos(&msg.time);
        self.stats.latency_nanos.store(latency, core::sync::atomic::Ordering::Relaxed);

        let SmartMessage { time, source, payload } = msg;
        match payload {
            SmartMessagePayload::Flush { on_flush_done } => {
                // Every envelope enqueued before this barrier has already
                // been drained: the queue is drained in order.
                on_flush_done.fire();
                None
            },
            SmartMessagePayload::Msg(inner) => {
                Some(SmartMessage { time, source, payload: SmartMessagePayload::Msg(inner) })
            },
            SmartMessagePayload::Quit(err) => {
                Some(SmartMessage { time, source, payload: SmartMessagePayload::Quit(err) })
            },
        }
    }
}

/// Creates a connected `Sender`/`Receiver` pair over an unbounded
/// transport, with fresh shared statistics, stamping `source` onto the
/// sender.
pub fn smart_channel<T: SizeBytes>(source: SmartMessageSource) -> (r: (Sender<T>, Receiver<T>))
    ensures
        r.0.spec_source() == source,
{
    let (tx, rx) = channel_unbounded::<SmartMessage<T>>();
    let stats = std::sync::Arc::new(SharedStats::new());
    let sender = Sender::new(tx, std::sync::Arc::new(source), arc_clone(&stats));
    let receiver = Receiver { rx, stats };
    (sender, receiver)
}

} // verus!
