//! Decisions taken while setting up the workers' endpoints.
use vstd::prelude::*;

verus! {

/// One step of configuring a worker's datagram endpoint.
#[derive(Debug, Clone, Copy, PartialEq, Eq, Structural)]
pub enum SetupStep {
    /// Opening the socket.
    Open,
    /// Enabling port reuse, so that every worker can bind the same address.
    ReusePort,
    /// Bounding how long one receive may block.
    ReceiveTimeout,
    /// Enlarging the kernel receive buffer.
    ReceiveBuffer,
    /// Binding to the configured address.
    Bind,
}

/// Whether a failure of `step` keeps the worker from starting. Only the
/// receive-buffer size is a best-effort performance setting.
pub open spec fn fatal_step(step: SetupStep) -> bool {
    step != SetupStep::ReceiveBuffer
}

pub fn is_fatal(step: SetupStep) -> (r: bool)
    ensures
        r == fatal_step(step),
{
    match step {
        SetupStep::ReceiveBuffer => false,
        _ => true,
    }
}

/// The engine runs only if every one of its `worker_count` workers started;
/// a missing worker would silently skew the measurement.
pub fn pool_started(ready: &Vec<bool>, worker_count: usize) -> (r: bool)
    ensures
        r == (ready@.len() == worker_count && forall|i: int| 0 <= i < ready@.len() ==> ready@[i]),
{
    if ready.len() != worker_count {
        return false;
    }
    let mut k: usize = 0;
    while k < ready.len()
        invariant
            k <= ready@.len(),
            forall|i: int| 0 <= i < k ==> ready@[i],
        decreases ready@.len() - k,
    {
        if !ready[k] {
            return false;
        }
        k = k + 1;
    }
    true
}

/// A receive timeout in milliseconds as whole seconds and leftover
/// microseconds, the form the socket option takes.
pub fn timeout_parts(ms: u64) -> (r: (u64, u64))
    ensures
        r.1 < 1_000_000,
        r.0 * 1_000_000 + r.1 == ms * 1000,
{
    let secs = ms / 1000;
    let rest = ms % 1000;
    let micros = rest * 1000;
    assert(secs * 1_000_000 + micros == ms * 1000) by (nonlinear_arith)
        requires
            secs == ms / 1000,
            rest == ms % 1000,
            micros == rest * 1000,
    ;
    (secs, micros)
}

} // verus!
