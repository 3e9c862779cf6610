//! Engine configuration, fixed before any worker starts.
use vstd::prelude::*;

verus! {

/// Size in bytes of one receive slot: one conservative maximum transmission unit.
pub const SLOT_SIZE: usize = 1500;

/// Why a configuration was refused.
#[derive(Debug, Clone, Copy, PartialEq, Eq, Structural)]
pub enum ConfigError {
    /// The pool must hold at least one worker.
    NoWorkers,
    /// A batched receive must ask for at least one datagram.
    EmptyBatch,
    /// A receive timeout of zero would let a receive block forever, so a
    /// worker could never observe the stop signal.
    UnboundedTimeout,
}

/// Immutable settings of one engine run.
#[derive(Debug, Clone)]
pub struct EngineConfig {
    pub host: String,
    pub port: u16,
    pub worker_count: u16,
    pub batch_size: usize,
    pub recv_timeout_ms: u64,
    pub recv_buffer_bytes: usize,
}

impl EngineConfig {
    /// A configuration that the engine can run.
    pub open spec fn wf(&self) -> bool {
        self.worker_count >= 1 && self.batch_size >= 1 && self.recv_timeout_ms >= 1
    }

    /// Checks the settings; the first rule broken, in the order workers,
    /// batch, timeout, is reported.
    pub fn new(
        host: String,
        port: u16,
        worker_count: u16,
        batch_size: usize,
        recv_timeout_ms: u64,
        recv_buffer_bytes: usize,
    ) -> (r: Result<EngineConfig, ConfigError>)
        ensures
            worker_count == 0 ==> r == Err::<EngineConfig, ConfigError>(ConfigError::NoWorkers),
            worker_count >= 1 && batch_size == 0 ==> r == Err::<EngineConfig, ConfigError>(
                ConfigError::EmptyBatch,
            ),
            worker_count >= 1 && batch_size >= 1 && recv_timeout_ms == 0 ==> r == Err::<
                EngineConfig,
                ConfigError,
            >(ConfigError::UnboundedTimeout),
            r is Ok <==> (worker_count >= 1 && batch_size >= 1 && recv_timeout_ms >= 1),
            r matches Ok(c) ==> c.wf() && c.host@ == host@ && c.port == port && c.worker_count
                == worker_count && c.batch_size == batch_size && c.recv_timeout_ms
                == recv_timeout_ms && c.recv_buffer_bytes == recv_buffer_bytes,
    {
        if worker_count == 0 {
            Err(ConfigError::NoWorkers)
        } else if batch_size == 0 {
            Err(ConfigError::EmptyBatch)
        } else if recv_timeout_ms == 0 {
            Err(ConfigError::UnboundedTimeout)
        } else {
            Ok(EngineConfig {
                host,
                port,
                worker_count,
                batch_size,
                recv_timeout_ms,
                recv_buffer_bytes,
            })
        }
    }
}

/// A worker's pre-allocated receive slots, reused for the worker's whole life.
pub struct BatchBuffer {
    pub slots: Vec<Vec<u8>>,
}

impl BatchBuffer {
    /// `batch_size` zeroed slots of `SLOT_SIZE` bytes each.
    pub fn new(batch_size: usize) -> (r: BatchBuffer)
        ensures
            r.slots@.len() == batch_size,
            forall|i: int|
                0 <= i < batch_size ==> #[trigger] r.slots@[i]@ == Seq::new(
                    SLOT_SIZE as nat,
                    |j: int| 0u8,
                ),
    {
        let mut slots: Vec<Vec<u8>> = Vec::new();
        let mut k: usize = 0;
        while k < batch_size
            invariant
                k <= batch_size,
                slots@.len() == k,
                forall|i: int|
                    0 <= i < k ==> #[trigger] slots@[i]@ == Seq::new(SLOT_SIZE as nat, |j: int| 0u8),
            decreases batch_size - k,
        {
            let slot = vec![0u8; SLOT_SIZE];
            assert(slot@ =~= Seq::new(SLOT_SIZE as nat, |j: int| 0u8));
            slots.push(slot);
            k = k + 1;
        }
        BatchBuffer { slots }
    }

    /// How many datagrams one batched receive into this buffer can return.
    pub fn capacity(&self) -> (r: usize)
        ensures
            r == self.slots@.len(),
    {
        self.slots.len()
    }
}

} // verus!
