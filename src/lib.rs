//! Decision logic of a multi-threaded, batched datagram-ingestion benchmark.
//!
//! The library holds what the engine decides: the configuration and its
//! validation, the per-worker receive/flush/stop state machine, the
//! coordinator's polling decisions and report lines, and a model of the shared
//! counter under concurrent flushing and draining, with its laws. Sockets,
//! threads, timers and atomics are driven by the program around it.
pub mod config;
pub mod counter;
pub mod report;
pub mod worker;
pub mod coordinator;
pub mod endpoint;
