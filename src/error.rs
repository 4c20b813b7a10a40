use vstd::prelude::*;

verus! {

/// Why a benchmark configuration was refused before any dispatch.
#[derive(Debug, Clone, Copy, PartialEq, Eq, Structural)]
pub enum ConfigIssue {
    /// The test duration is zero or negative.
    NonPositiveDuration,
    /// The list of worker addresses is empty.
    NoWorkers,
    /// The thread count is zero.
    ZeroThreads,
    /// More workers than a request's 32-bit position fields can number.
    TooManyWorkers,
}

/// Errors of the worker endpoint and of the coordinator.
#[derive(Debug, Clone, Copy, PartialEq, Eq, Structural)]
pub enum BenchError {
    /// The challenge of a request is not exactly 32 bytes long.
    MalformedRequest,
    /// The configuration was refused; nothing was dispatched.
    ConfigurationError(ConfigIssue),
    /// No channel could be established to the worker at this position.
    ConnectionFailure(usize),
    /// The worker at this position answered with an error or an invalid count.
    RemoteFailure(usize),
    /// A local search unit did not complete.
    SearchFailure,
}

} // verus!
