//! Error types for the frame bridge, the pooling step, and the run as
//! a whole. Every error is terminal: this is a single-shot batch tool
//! with no retry policy and no partial-result recovery.

use vstd::prelude::*;

verus! {

/// Why the frame bridge aborted one callback invocation.
#[derive(Debug, Clone, Copy, PartialEq, Eq, Structural)]
pub enum BridgeError {
    /// The delivered frame's byte length does not match the planar
    /// 4:2:0 layout of the target geometry. The pipeline was
    /// misconfigured: a fatal contract violation, never a silent
    /// wraparound or an out-of-bounds copy.
    SizeMismatch { actual: usize, expected: usize },
    /// The shared scoring state was already torn down when the frame
    /// arrived. The callback aborts this frame gracefully and signals
    /// a flow error to the pipeline instead of touching freed state.
    SessionClosed,
}

/// Why the pooling range could not be formed at finalization.
#[derive(Debug, Clone, Copy, PartialEq, Eq, Structural)]
pub enum PoolError {
    /// No frame pair was ever submitted, so there is no index range to
    /// pool over; a range error is reported rather than a score.
    EmptyRange,
}

/// How one measurement run ended, following the error taxonomy:
/// usage, setup, runtime decode, or contract violation.
#[derive(Debug, Clone, Copy, PartialEq, Eq, Structural)]
pub enum RunOutcome {
    /// The pooled score was computed and reported.
    Success,
    /// Wrong command-line arity; reported before any work is done.
    UsageError,
    /// Pipeline or engine construction failed: bad path, unparseable
    /// pipeline description, missing sink, or model load failure.
    SetupError,
    /// The pipeline reported an asynchronous decode error.
    DecodeError,
    /// A delivered frame broke the geometry contract, or finalization
    /// found nothing to pool over.
    ContractViolation,
}

} // verus!
