//! Trusted boundary to the cross-thread transport.
//!
//! The channels that carry envelopes between threads come from `crossbeam`,
//! and timestamps come from `web_time`. Both ends of a channel can live on
//! different threads, so no contract here may speak of the channel's
//! contents: what a concurrent peer does to the queue between two calls is
//! not a function of the handle value. Each wrapper therefore states only
//! what holds of every outcome; the verified logic built on top takes the
//! results as arbitrary values of the stated shape.

use crossbeam::channel::Receiver as CbReceiver;
use crossbeam::channel::Sender as CbSender;
use vstd::prelude::*;

verus! {

#[verifier::external_type_specification]
#[verifier::external_body]
#[verifier::reject_recursive_types(T)]
pub struct ExCrossbeamSender<T>(CbSender<T>);

#[verifier::external_type_specification]
#[verifier::external_body]
#[verifier::reject_recursive_types(T)]
pub struct ExCrossbeamReceiver<T>(CbReceiver<T>);

#[verifier::external_type_specification]
#[verifier::external_body]
pub struct ExInstant(web_time::Instant);

// Relies on `crossbeam::channel::Sender::clone`: the clone is another
// handle feeding the same queue.
pub assume_specification<T>[ <CbSender<T> as Clone>::clone ](tx: &CbSender<T>) -> CbSender<T>;

/// What a non-blocking receive attempt found.
pub enum TryRecvResult<T> {
    /// A message was waiting.
    Received(T),
    /// The queue is currently empty but senders still exist.
    Empty,
    /// The queue is empty and every sender has been dropped.
    Disconnected,
}

/// What a bounded-wait receive attempt found.
pub enum RecvTimeoutResult<T> {
    /// A message arrived in time.
    Received(T),
    /// The wait elapsed without a message.
    Timeout,
    /// Every sender was dropped and the queue is drained.
    Disconnected,
}

/// Relies on `crossbeam::channel::unbounded`: a connected sender/receiver
/// pair over a queue without capacity bound.
#[verifier::external_body]
pub(crate) fn channel_unbounded<T>() -> (crossbeam::channel::Sender<T>, crossbeam::channel::Receiver<
    T,
>) {
    crossbeam::channel::unbounded()
}

/// Relies on `crossbeam::channel::bounded`: a connected sender/receiver
/// pair over a queue holding at most `cap` messages; a send on a full queue
/// blocks until space is available.
#[verifier::external_body]
pub(crate) fn channel_bounded<T>(cap: usize) -> (crossbeam::channel::Sender<T>, crossbeam::channel::Receiver<
    T,
>) {
    crossbeam::channel::bounded(cap)
}

/// Relies on `crossbeam::channel::Sender::send`: the message is delivered
/// to the queue unless every receiver has been dropped, in which case the
/// very message that was passed in comes back unconsumed. On a bounded
/// queue that is full, the call blocks until space frees up or the
/// receivers disappear.
#[verifier::external_body]
pub(crate) fn channel_send<T>(tx: &crossbeam::channel::Sender<T>, msg: T) -> (r: Result<(), T>)
    ensures
        r matches Err(m) ==> m == msg,
{
    tx.send(msg).map_err(|e| e.0)
}

/// Relies on `crossbeam::channel::Receiver::try_recv`: returns a waiting
/// message without blocking, or reports the queue empty or disconnected.
#[verifier::external_body]
pub(crate) fn channel_try_recv<T>(rx: &crossbeam::channel::Receiver<T>) -> (r: TryRecvResult<T>) {
    match rx.try_recv() {
        Ok(msg) => TryRecvResult::Received(msg),
        Err(crossbeam::channel::TryRecvError::Empty) => TryRecvResult::Empty,
        Err(crossbeam::channel::TryRecvError::Disconnected) => TryRecvResult::Disconnected,
    }
}

/// Relies on `crossbeam::channel::Receiver::recv`: blocks until a message
/// arrives (`Some`) or all senders are gone and the queue is drained
/// (`None`).
#[verifier::external_body]
pub(crate) fn channel_recv<T>(rx: &crossbeam::channel::Receiver<T>) -> (r: Option<T>) {
    match rx.recv() {
        Ok(msg) => Some(msg),
        Err(crossbeam::channel::RecvError) => None,
    }
}

/// Relies on `crossbeam::channel::Receiver::recv_timeout`: blocks for at
/// most the given duration.
#[verifier::external_body]
pub(crate) fn channel_recv_timeout<T>(
    rx: &crossbeam::channel::Receiver<T>,
    timeout_nanos: u64,
) -> (r: RecvTimeoutResult<T>) {
    match rx.recv_timeout(std::time::Duration::from_nanos(timeout_nanos)) {
        Ok(msg) => RecvTimeoutResult::Received(msg),
        Err(crossbeam::channel::RecvTimeoutError::Timeout) => RecvTimeoutResult::Timeout,
        Err(crossbeam::channel::RecvTimeoutError::Disconnected) => RecvTimeoutResult::Disconnected,
    }
}

/// Relies on `crossbeam::channel::Sender::len`: a momentary count of queued
/// messages; concurrent peers may change it at any time.
#[verifier::external_body]
pub(crate) fn channel_len<T>(tx: &crossbeam::channel::Sender<T>) -> (r: usize) {
    tx.len()
}

/// Relies on `crossbeam::channel::Receiver::len`: a momentary count of
/// queued messages; concurrent peers may change it at any time.
#[verifier::external_body]
pub(crate) fn channel_receiver_len<T>(rx: &crossbeam::channel::Receiver<T>) -> (r: usize) {
    rx.len()
}

/// Relies on `crossbeam::channel::Sender::is_empty`: a momentary emptiness
/// check; concurrent peers may change it at any time.
#[verifier::external_body]
pub(crate) fn channel_is_empty<T>(tx: &crossbeam::channel::Sender<T>) -> (r: bool) {
    tx.is_empty()
}

/// Relies on `web_time::Instant::now`: an opaque reading of the monotonic
/// clock.
#[verifier::external_body]
pub(crate) fn instant_now() -> (r: web_time::Instant) {
    web_time::Instant::now()
}

/// Relies on `web_time::Instant::elapsed`: the nanoseconds that passed
/// since the reading was taken; depends on the clock, so nothing can be
/// promised of the value.
#[verifier::external_body]
pub(crate) fn instant_elapsed_nanos(t: &web_time::Instant) -> (r: u64) {
    t.elapsed().as_nanos() as u64
}

/// Relies on `std::sync::Arc::clone`: the clone refers to the same value.
#[verifier::external_body]
pub(crate) fn arc_clone<T>(v: &std::sync::Arc<T>) -> (r: std::sync::Arc<T>)
    ensures
        r == *v,
{
    std::sync::Arc::clone(v)
}

} // verus!
