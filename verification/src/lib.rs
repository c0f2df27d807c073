//! A verified core for a concurrent RPC load-generation harness.
//!
//! The library covers the benchmark driver: partitioning a total iteration
//! count across workers, the per-worker call loop as a state machine with
//! failure isolation, deterministic request generation, and aggregation of
//! per-worker outcomes into a throughput report. Connection handling and the
//! RPC transport are collaborators that the surrounding application drives;
//! the library decides, the application performs.

pub mod config;
pub mod dispatch;
pub mod worker;
pub mod aggregate;
pub mod laws;
pub mod request;
pub mod service;
