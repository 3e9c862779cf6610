//! The per-worker state machine: receive, flush, stop.
use vstd::prelude::*;

verus! {

/// What one batched receive attempt came back with.
#[derive(Debug, Clone, Copy, PartialEq, Eq, Structural)]
pub enum RecvOutcome {
    /// The call succeeded and filled this many slots (possibly none).
    Received(usize),
    /// No datagram arrived within the receive timeout.
    WouldBlock,
    /// Any other failure: the endpoint is unusable.
    Failed,
}

/// What the worker loop does next.
#[derive(Debug, Clone, Copy, PartialEq, Eq, Structural)]
pub enum WorkerAction {
    /// Leave the loop; no further socket activity.
    Stop,
    /// Add the local count into the shared counter.
    Flush,
    /// Issue one batched receive.
    Receive,
}

/// Whether the loop goes on after a receive attempt.
#[derive(Debug, Clone, Copy, PartialEq, Eq, Structural)]
pub enum ReceiveStep {
    Continue,
    Stop,
}

/// Local count after a receive that returned `n` datagrams into a batch of
/// `batch` slots: a count within the batch is added once, anything else adds
/// nothing.
pub open spec fn counted_after(local: nat, n: nat, batch: nat) -> nat {
    if n <= batch {
        local + n
    } else {
        local
    }
}

/// One worker's private state: its batch size, the count not yet flushed, and
/// whether it has stopped.
pub struct Worker {
    batch_size: usize,
    local: u64,
    stopped: bool,
}

impl Worker {
    pub closed spec fn batch_spec(&self) -> nat {
        self.batch_size as nat
    }

    pub closed spec fn local_spec(&self) -> nat {
        self.local as nat
    }

    pub closed spec fn stopped_spec(&self) -> bool {
        self.stopped
    }

    /// The local count can take one more full batch without overflowing.
    pub open spec fn has_room(&self) -> bool {
        self.local_spec() + self.batch_spec() <= u64::MAX
    }

    /// A fresh worker, receiving, with nothing counted.
    pub fn new(batch_size: usize) -> (r: Worker)
        ensures
            r.batch_spec() == batch_size,
            r.local_spec() == 0,
            !r.stopped_spec(),
    {
        Worker { batch_size, local: 0, stopped: false }
    }

    pub fn batch_size(&self) -> (r: usize)
        ensures
            r == self.batch_spec(),
    {
        self.batch_size
    }

    pub fn local_count(&self) -> (r: u64)
        ensures
            r == self.local_spec(),
    {
        self.local
    }

    pub fn is_stopped(&self) -> (r: bool)
        ensures
            r == self.stopped_spec(),
    {
        self.stopped
    }

    /// Decides the next step in priority order: the stop signal (or an earlier
    /// stop) first, then a due flush, then a receive. A flush is also chosen
    /// when the local count has no room for another full batch.
    pub fn next_action(&mut self, stop_requested: bool, flush_due: bool) -> (r: WorkerAction)
        ensures
            final(self).batch_spec() == old(self).batch_spec(),
            final(self).local_spec() == old(self).local_spec(),
            (stop_requested || old(self).stopped_spec()) ==> r == WorkerAction::Stop,
            !(stop_requested || old(self).stopped_spec()) && (flush_due || !old(self).has_room())
                ==> r == WorkerAction::Flush,
            !(stop_requested || old(self).stopped_spec()) && !flush_due && old(self).has_room()
                ==> r == WorkerAction::Receive,
            final(self).stopped_spec() == (r == WorkerAction::Stop),
    {
        if stop_requested || self.stopped {
            self.stopped = true;
            WorkerAction::Stop
        } else if flush_due || self.local > u64::MAX - self.batch_size as u64 {
            WorkerAction::Flush
        } else {
            WorkerAction::Receive
        }
    }

    /// Accounts for one batched receive attempt. A successful call adds exactly
    /// the number of datagrams it returned; a timeout changes nothing; a failure,
    /// or a count beyond the batch (which no working endpoint returns), stops
    /// the worker.
    pub fn on_receive(&mut self, outcome: RecvOutcome) -> (r: ReceiveStep)
        requires
            !old(self).stopped_spec(),
            old(self).has_room(),
        ensures
            final(self).batch_spec() == old(self).batch_spec(),
            final(self).local_spec() <= old(self).local_spec() + old(self).batch_spec(),
            match outcome {
                RecvOutcome::Received(n) => {
                    &&& final(self).local_spec() == counted_after(
                        old(self).local_spec(),
                        n as nat,
                        old(self).batch_spec(),
                    )
                    &&& (r == ReceiveStep::Continue) == (n <= old(self).batch_spec())
                },
                RecvOutcome::WouldBlock => {
                    &&& final(self).local_spec() == old(self).local_spec()
                    &&& r == ReceiveStep::Continue
                },
                RecvOutcome::Failed => {
                    &&& final(self).local_spec() == old(self).local_spec()
                    &&& r == ReceiveStep::Stop
                },
            },
            final(self).stopped_spec() == (r == ReceiveStep::Stop),
    {
        match outcome {
            RecvOutcome::Received(n) => {
                if n <= self.batch_size {
                    self.local = self.local + n as u64;
                    ReceiveStep::Continue
                } else {
                    self.stopped = true;
                    ReceiveStep::Stop
                }
            },
            RecvOutcome::WouldBlock => ReceiveStep::Continue,
            RecvOutcome::Failed => {
                self.stopped = true;
                ReceiveStep::Stop
            },
        }
    }

    /// Hands over the local count for adding into the shared counter, and
    /// starts counting again from zero.
    pub fn take_flush(&mut self) -> (r: u64)
        ensures
            r == old(self).local_spec(),
            final(self).local_spec() == 0,
            final(self).batch_spec() == old(self).batch_spec(),
            final(self).stopped_spec() == old(self).stopped_spec(),
    {
        let n = self.local;
        self.local = 0;
        n
    }
}

} // verus!
