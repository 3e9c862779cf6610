//! A model of the shared counter and the laws it obeys.
//!
//! Workers add flushed counts with atomic additions; the coordinator reads the
//! value, prints it, and then subtracts exactly what it read with a second
//! atomic operation. Additions may land between the read and the subtraction.
use vstd::prelude::*;
use crate::worker::counted_after;

verus! {

/// One atomic operation on the shared counter.
pub enum CounterOp {
    /// A worker's flush adds its local count.
    Add(nat),
    /// The coordinator reads (and prints) the value.
    Read,
    /// The coordinator subtracts the value it last read.
    SubtractRead,
}

/// The shared counter together with its history: the total ever added, the
/// total ever printed, and the value read but not yet subtracted.
pub struct CounterState {
    pub value: int,
    pub pending: Option<nat>,
    pub added: nat,
    pub printed: nat,
}

pub open spec fn counter_init() -> CounterState {
    CounterState { value: 0, pending: None, added: 0, printed: 0 }
}

/// The coordinator is sequential: it subtracts only after a read, and reads
/// again only after subtracting.
pub open spec fn op_allowed(s: CounterState, op: CounterOp) -> bool {
    match op {
        CounterOp::Add(_) => true,
        CounterOp::Read => s.pending is None,
        CounterOp::SubtractRead => s.pending is Some,
    }
}

pub open spec fn counter_step(s: CounterState, op: CounterOp) -> CounterState {
    match op {
        CounterOp::Add(n) => CounterState { value: s.value + n, added: s.added + n, ..s },
        CounterOp::Read => CounterState {
            pending: Some(s.value as nat),
            printed: s.printed + s.value as nat,
            ..s
        },
        CounterOp::SubtractRead => CounterState {
            value: s.value - s.pending.unwrap(),
            pending: None,
            ..s
        },
    }
}

/// The state after the operations, in order, from a zero counter.
pub open spec fn counter_run(ops: Seq<CounterOp>) -> CounterState
    decreases ops.len(),
{
    if ops.len() == 0 {
        counter_init()
    } else {
        counter_step(counter_run(ops.drop_last()), ops.last())
    }
}

/// Every operation of the interleaving is allowed where it occurs.
pub open spec fn schedule_ok(ops: Seq<CounterOp>) -> bool {
    forall|i: int| 0 <= i < ops.len() ==> op_allowed(#[trigger] counter_run(ops.take(i)), ops[i])
}

pub open spec fn pending_amount(s: CounterState) -> nat {
    match s.pending {
        Some(v) => v,
        None => 0,
    }
}

pub open spec fn counter_inv(s: CounterState) -> bool {
    &&& s.value >= 0
    &&& s.pending matches Some(v) ==> v <= s.value
    &&& s.printed + s.value == s.added + pending_amount(s)
}

proof fn lemma_schedule_prefix(ops: Seq<CounterOp>, k: int)
    requires
        schedule_ok(ops),
        0 <= k <= ops.len(),
    ensures
        schedule_ok(ops.take(k)),
{
    let p = ops.take(k);
    assert forall|i: int| 0 <= i < p.len() implies op_allowed(
        #[trigger] counter_run(p.take(i)),
        p[i],
    ) by {
        assert(p.take(i) =~= ops.take(i));
        assert(op_allowed(counter_run(ops.take(i)), ops[i]));
    }
}

proof fn lemma_counter_inv(ops: Seq<CounterOp>)
    requires
        schedule_ok(ops),
    ensures
        counter_inv(counter_run(ops)),
    decreases ops.len(),
{
    if ops.len() > 0 {
        let n = ops.len() - 1;
        lemma_schedule_prefix(ops, n);
        assert(ops.take(n) =~= ops.drop_last());
        lemma_counter_inv(ops.drop_last());
        assert(op_allowed(counter_run(ops.take(n)), ops[n]));
    }
}

/// The shared counter is never negative, at any point of any interleaving of
/// worker additions with the coordinator's read-then-subtract.
pub proof fn lemma_counter_never_negative(ops: Seq<CounterOp>, k: int)
    requires
        schedule_ok(ops),
        0 <= k <= ops.len(),
    ensures
        counter_run(ops.take(k)).value >= 0,
{
    lemma_schedule_prefix(ops, k);
    lemma_counter_inv(ops.take(k));
}

/// Nothing is lost from the running total, even when additions race with a
/// report: what was printed plus what is in the counter equals everything
/// added, once the last read has been subtracted.
pub proof fn lemma_counter_conserves(ops: Seq<CounterOp>)
    requires
        schedule_ok(ops),
        counter_run(ops).pending is None,
    ensures
        counter_run(ops).printed + counter_run(ops).value == counter_run(ops).added,
{
    lemma_counter_inv(ops);
}

/// One event of a single worker running beside the coordinator, when reporting
/// and flushing never interleave mid-operation.
pub enum EngineEvent {
    /// A batched receive returned this many datagrams.
    Receive(nat),
    /// The worker flushed its local count into the shared counter.
    Flush,
    /// The coordinator printed the shared counter and subtracted it.
    Report,
}

/// The worker's local count, the shared counter, the total printed, and the
/// total of counted receives.
pub struct EngineState {
    pub local: nat,
    pub shared: nat,
    pub printed: nat,
    pub received: nat,
}

pub open spec fn engine_step(s: EngineState, e: EngineEvent, batch: nat) -> EngineState {
    match e {
        EngineEvent::Receive(n) => EngineState {
            local: counted_after(s.local, n, batch),
            received: counted_after(s.received, n, batch),
            ..s
        },
        EngineEvent::Flush => EngineState { local: 0, shared: s.shared + s.local, ..s },
        EngineEvent::Report => EngineState { shared: 0, printed: s.printed + s.shared, ..s },
    }
}

pub open spec fn engine_run(events: Seq<EngineEvent>, batch: nat) -> EngineState
    decreases events.len(),
{
    if events.len() == 0 {
        EngineState { local: 0, shared: 0, printed: 0, received: 0 }
    } else {
        engine_step(engine_run(events.drop_last(), batch), events.last(), batch)
    }
}

/// Without contention every counted datagram is printed exactly once or is
/// still held: printed + shared + local equals the number received, and when
/// the run ends with a flush followed by a report, the printed periods add up
/// to exactly the number received.
pub proof fn lemma_engine_conserves(events: Seq<EngineEvent>, batch: nat)
    ensures
        engine_run(events, batch).printed + engine_run(events, batch).shared + engine_run(
            events,
            batch,
        ).local == engine_run(events, batch).received,
        events.len() >= 2 && events[events.len() - 2] is Flush && events.last() is Report
            ==> engine_run(events, batch).printed == engine_run(events, batch).received,
    decreases events.len(),
{
    if events.len() > 0 {
        lemma_engine_conserves(events.drop_last(), batch);
        if events.len() >= 2 && events[events.len() - 2] is Flush && events.last() is Report {
            let before = events.drop_last();
            assert(before.last() is Flush);
            lemma_engine_conserves(before.drop_last(), batch);
        }
    }
}

} // verus!
