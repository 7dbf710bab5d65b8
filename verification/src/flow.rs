//! The sequential semantics of the transport, and the laws that hold of
//! every interleaving of sends and receives.
//!
//! The executable channel shares its state between threads, so its
//! contracts cannot speak of the queue's contents. This module states what
//! the sender and receiver steps *mean* — exactly the increments,
//! decrements and queue operations the executable code performs, one event
//! at a time — and proves the transport's laws over every possible event
//! sequence: the byte counter always equals the bytes resident, a rejected
//! send rolls back to the pre-call value, a flush barrier is reached only
//! after everything sent before it, and each producer's envelopes are
//! delivered in that producer's send order.

use vstd::prelude::*;

verus! {

/// One byte-accounting step of the channel, as the sender and receiver
/// perform it.
pub enum AccountingEvent {
    /// A tracked send that the transport accepted: its size was added to
    /// the counter and the envelope became resident.
    SendAccepted { size: u64 },
    /// A tracked send that the transport refused: its size was added
    /// before the attempt and subtracted again by the rollback; nothing
    /// became resident.
    SendRejected { size: u64 },
    /// A drain of the oldest resident envelope: its size was subtracted.
    Recv,
}

/// The sizes of the envelopes resident in the transport after the events,
/// oldest first.
pub open spec fn resident_sizes(events: Seq<AccountingEvent>) -> Seq<u64>
    decreases events.len(),
{
    if events.len() == 0 {
        Seq::empty()
    } else {
        let prev = resident_sizes(events.drop_last());
        match events.last() {
            AccountingEvent::SendAccepted { size } => prev.push(size),
            AccountingEvent::SendRejected { .. } => prev,
            AccountingEvent::Recv => if prev.len() > 0 {
                prev.drop_first()
            } else {
                prev
            },
        }
    }
}

/// The value of the shared byte counter after the events: each event
/// applies exactly the additions and subtractions that the executable
/// sender and receiver perform.
pub open spec fn queued_bytes_after(events: Seq<AccountingEvent>) -> int
    decreases events.len(),
{
    if events.len() == 0 {
        0
    } else {
        let prev_events = events.drop_last();
        let prev = queued_bytes_after(prev_events);
        match events.last() {
            AccountingEvent::SendAccepted { size } => prev + size,
            // Added before the attempt, subtracted by the rollback.
            AccountingEvent::SendRejected { size } => prev + size - size,
            AccountingEvent::Recv => {
                let resident = resident_sizes(prev_events);
                if resident.len() > 0 {
                    prev - resident.first()
                } else {
                    prev
                }
            },
        }
    }
}

/// Sum of a sequence of sizes.
pub open spec fn sum_sizes(sizes: Seq<u64>) -> int
    decreases sizes.len(),
{
    if sizes.len() == 0 {
        0
    } else {
        sizes.first() + sum_sizes(sizes.drop_first())
    }
}

proof fn lemma_sum_push(sizes: Seq<u64>, x: u64)
    ensures
        sum_sizes(sizes.push(x)) == sum_sizes(sizes) + x,
    decreases sizes.len(),
{
    let p = sizes.push(x);
    if sizes.len() == 0 {
        assert(p.first() == x);
        assert(p.drop_first() =~= Seq::<u64>::empty());
        assert(sum_sizes(p) == p.first() + sum_sizes(p.drop_first()));
        assert(sum_sizes(Seq::<u64>::empty()) == 0);
    } else {
        assert(p.first() == sizes.first());
        assert(p.drop_first() =~= sizes.drop_first().push(x));
        lemma_sum_push(sizes.drop_first(), x);
        assert(sum_sizes(p) == p.first() + sum_sizes(p.drop_first()));
        assert(sum_sizes(sizes) == sizes.first() + sum_sizes(sizes.drop_first()));
    }
}

/// Byte-accounting invariant: after any sequence of sends and receives,
/// the shared byte counter equals the sum of the sizes of the envelopes
/// still resident in the transport.
pub proof fn lemma_byte_accounting(events: Seq<AccountingEvent>)
    ensures
        queued_bytes_after(events) == sum_sizes(resident_sizes(events)),
    decreases events.len(),
{
    if events.len() > 0 {
        let prev_events = events.drop_last();
        lemma_byte_accounting(prev_events);
        let prev = resident_sizes(prev_events);
        match events.last() {
            AccountingEvent::SendAccepted { size } => {
                lemma_sum_push(prev, size);
            },
            AccountingEvent::SendRejected { .. } => {
            },
            AccountingEvent::Recv => {
            },
        }
    }
}

/// A rejected send leaves both the byte counter and the resident
/// envelopes exactly as they were before the call: no leakage, no double
/// counting.
pub proof fn lemma_rejected_send_rolls_back(events: Seq<AccountingEvent>, size: u64)
    ensures
        queued_bytes_after(events.push(AccountingEvent::SendRejected { size }))
            == queued_bytes_after(events),
        resident_sizes(events.push(AccountingEvent::SendRejected { size })) == resident_sizes(
            events,
        ),
{
    let pushed = events.push(AccountingEvent::SendRejected { size });
    assert(pushed.drop_last() =~= events);
}

/// An envelope as the ordering laws see it: which producer sent it, and
/// its per-producer sequence number. What the envelope carries — a domain
/// message, a flush barrier or a quit signal — does not matter to the
/// ordering: each is one element of the queue, and in particular a quit
/// neither closes the queue nor changes how later envelopes are delivered.
pub struct FlowEnvelope {
    pub producer: int,
    pub seq_no: int,
}

/// The transport from the single receiver's point of view: the queue of
/// envelopes not yet drained, and the log of envelopes delivered so far,
/// oldest first.
pub struct FlowState {
    pub queue: Seq<FlowEnvelope>,
    pub delivered: Seq<FlowEnvelope>,
}

/// A fresh channel: nothing queued, nothing delivered.
pub open spec fn flow_init(s: FlowState) -> bool {
    s.queue.len() == 0 && s.delivered.len() == 0
}

/// A send from any producer appends its envelope to the queue.
pub open spec fn flow_send(s: FlowState, e: FlowEnvelope) -> FlowState {
    FlowState { queue: s.queue.push(e), delivered: s.delivered }
}

/// A drain moves the oldest queued envelope to the delivery log: the
/// receiver is single, so delivery order is the queue order.
pub open spec fn flow_recv(s: FlowState) -> FlowState
    recommends
        s.queue.len() > 0,
{
    FlowState { queue: s.queue.drop_first(), delivered: s.delivered.push(s.queue.first()) }
}

/// What ties a state to the full send history: the delivery log followed
/// by the queue is exactly the sequence of sends, in order.
pub open spec fn flow_inv(s: FlowState, sent: Seq<FlowEnvelope>) -> bool {
    s.delivered + s.queue == sent
}

/// A fresh channel satisfies the invariant against the empty history.
pub proof fn lemma_flow_init(s: FlowState)
    requires
        flow_init(s),
    ensures
        flow_inv(s, Seq::<FlowEnvelope>::empty()),
{
    assert(s.delivered + s.queue =~= Seq::<FlowEnvelope>::empty());
}

/// Sending preserves the invariant, extending the history.
pub proof fn lemma_flow_send_preserves(s: FlowState, sent: Seq<FlowEnvelope>, e: FlowEnvelope)
    requires
        flow_inv(s, sent),
    ensures
        flow_inv(flow_send(s, e), sent.push(e)),
{
    assert(s.delivered + s.queue.push(e) =~= (s.delivered + s.queue).push(e));
}

/// Draining preserves the invariant, leaving the history as it is.
pub proof fn lemma_flow_recv_preserves(s: FlowState, sent: Seq<FlowEnvelope>)
    requires
        flow_inv(s, sent),
        s.queue.len() > 0,
    ensures
        flow_inv(flow_recv(s), sent),
{
    assert(s.delivered.push(s.queue.first()) + s.queue.drop_first() =~= s.delivered + s.queue);
}

/// The delivery log is always a prefix of the send history: nothing is
/// delivered out of order, duplicated or invented.
pub proof fn lemma_delivered_is_prefix(s: FlowState, sent: Seq<FlowEnvelope>)
    requires
        flow_inv(s, sent),
    ensures
        s.delivered == sent.take(s.delivered.len() as int),
{
    assert(s.delivered =~= sent.take(s.delivered.len() as int));
}

/// Flush-barrier law: once the envelope sent at position `k` — a flush
/// barrier, say — has been delivered, every envelope sent before it, from
/// whatever producer, has already been delivered, and in send order. The
/// receiver fires the barrier's completion signal at that moment, so the
/// signal fires only after all `k` earlier envelopes are gone from the
/// transport.
pub proof fn lemma_flush_barrier(s: FlowState, sent: Seq<FlowEnvelope>, k: int)
    requires
        flow_inv(s, sent),
        0 <= k < sent.len(),
        // The barrier has left the queue: it sits in the delivery log.
        s.delivered.len() > k,
    ensures
        s.delivered[k] == sent[k],
        s.delivered.take(k) == sent.take(k),
{
    lemma_delivered_is_prefix(s, sent);
    assert(s.delivered.take(k) =~= sent.take(k));
}

/// Per-producer order of a history: each producer's envelopes carry
/// strictly increasing sequence numbers along it.
pub open spec fn per_producer_ordered(q: Seq<FlowEnvelope>) -> bool {
    forall|i: int, j: int|
        #![trigger q[i], q[j]]
        0 <= i < j < q.len() && q[i].producer == q[j].producer ==> q[i].seq_no < q[j].seq_no
}

/// A producer that stamps each envelope with a sequence number above all
/// its earlier ones keeps the whole history per-producer ordered, however
/// the producers interleave.
pub proof fn lemma_send_fresh_seq_no(sent: Seq<FlowEnvelope>, e: FlowEnvelope)
    requires
        per_producer_ordered(sent),
        forall|i: int|
            #![trigger sent[i]]
            0 <= i < sent.len() && sent[i].producer == e.producer ==> sent[i].seq_no < e.seq_no,
    ensures
        per_producer_ordered(sent.push(e)),
{
    let pushed = sent.push(e);
    assert forall|i: int, j: int|
        0 <= i < j < pushed.len() && pushed[i].producer == pushed[j].producer implies pushed[i].seq_no
        < pushed[j].seq_no by {
        if j < sent.len() {
            assert(pushed[i] == sent[i] && pushed[j] == sent[j]);
        } else {
            assert(pushed[i] == sent[i] && pushed[j] == e);
        }
    }
}

/// Per-producer FIFO: the receiver observes every producer's envelopes in
/// that producer's send order, regardless of interleaving from other
/// producers — the delivery log of any reachable state is per-producer
/// ordered whenever the send history is.
pub proof fn lemma_per_producer_fifo(s: FlowState, sent: Seq<FlowEnvelope>)
    requires
        flow_inv(s, sent),
        per_producer_ordered(sent),
    ensures
        per_producer_ordered(s.delivered),
{
    lemma_delivered_is_prefix(s, sent);
    assert forall|i: int, j: int|
        0 <= i < j < s.delivered.len() && s.delivered[i].producer == s.delivered[j].producer implies s.delivered[i].seq_no
        < s.delivered[j].seq_no by {
        assert(s.delivered[i] == sent[i] && s.delivered[j] == sent[j]);
    }
}

} // verus!
