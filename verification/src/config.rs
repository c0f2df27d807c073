//! Benchmark configuration and the errors that reject a bad one.

use vstd::prelude::*;

verus! {

/// Immutable description of one benchmark run: how many calls to issue in
/// total, how many concurrent workers to share them out to, and where the
/// collaborator service listens.
pub struct BenchmarkConfig {
    pub total_iterations: u32,
    pub worker_count: u32,
    pub endpoint_address: String,
}

/// Configuration faults that abort the run before any worker is spawned.
#[derive(Clone, Copy, PartialEq, Eq, Structural, Debug)]
pub enum ConfigError {
    /// The run was asked for with zero workers.
    NoWorkers,
    /// The run was asked for with zero total iterations.
    InvalidIterationCount,
}

impl ConfigError {
    /// A human-readable account of the fault, for the caller that surfaces
    /// the error to the user.
    pub fn describe(&self) -> (r: String)
        ensures
            r@ == (match self {
                ConfigError::NoWorkers => "the worker count must be at least 1"@,
                ConfigError::InvalidIterationCount => "the total iteration count must be at least 1"@,
            }),
    {
        match self {
            ConfigError::NoWorkers => "the worker count must be at least 1".to_string(),
            ConfigError::InvalidIterationCount => "the total iteration count must be at least 1".to_string(),
        }
    }
}

impl BenchmarkConfig {
    /// A configuration is valid when it names at least one worker and at
    /// least one iteration.
    pub open spec fn is_valid(self) -> bool {
        self.worker_count >= 1 && self.total_iterations >= 1
    }
}

} // verus!
