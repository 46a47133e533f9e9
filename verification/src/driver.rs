//! The driver's lifecycle: a single-shot state machine from pipeline
//! construction to the reported score, with every failure terminal.
//!
//! The unverified front end performs each action — it builds the
//! pipeline, starts playback, blocks on the event channel, stops the
//! pipeline and pools the score — and reports the result back as an
//! event; the decision what happens next is taken here.

use vstd::prelude::*;
use crate::error::RunOutcome;

verus! {

/// Lifecycle phase of one measurement run.
#[derive(Debug, Clone, Copy, PartialEq, Eq, Structural)]
pub enum DriverPhase {
    /// Nothing constructed yet.
    Uninitialized,
    /// Pipeline and engine constructed, callback wired.
    PipelineBuilt,
    /// Playback running; frames are being delivered to the bridge.
    Playing,
    /// A terminal stream event arrived; the pipeline is being stopped
    /// and the score pooled.
    Draining,
    /// The run is over; nothing more will happen.
    Closed,
}

/// What the front end reports to the driver.
#[derive(Debug, Clone, Copy, PartialEq, Eq, Structural)]
pub enum DriverEvent {
    /// Pipeline and engine construction succeeded.
    BuildSucceeded,
    /// Construction failed: bad path, unparseable pipeline
    /// description, missing sink, or model load failure.
    BuildFailed,
    /// Playback reached the playing state.
    PlaybackStarted,
    /// Playback could not start.
    PlaybackRefused,
    /// The stream ended normally.
    EndOfStream,
    /// The pipeline reported an asynchronous decode error.
    StreamError,
    /// The pipeline was stopped and the pooled score reported.
    RunCompleted,
}

/// What the driver instructs the front end to do next.
#[derive(Debug, Clone, Copy, PartialEq, Eq, Structural)]
pub enum DriverAction {
    /// Start pipeline playback.
    BeginPlayback,
    /// Block on the pipeline's event channel until a terminal event.
    AwaitStreamEnd,
    /// Stop the pipeline first, then flush the engine, pool the score
    /// over the submitted range, and report it.
    StopAndFinalize,
    /// Report the failure and terminate with a non-zero status.
    AbortRun,
    /// Nothing further: the run is over.
    Halt,
}

/// The driver's transition relation. Every failure, and every event
/// that arrives out of protocol, is terminal: there is no retry path
/// anywhere in a single-shot batch run.
pub open spec fn spec_step(phase: DriverPhase, event: DriverEvent) -> (DriverPhase, DriverAction) {
    match (phase, event) {
        (DriverPhase::Uninitialized, DriverEvent::BuildSucceeded) => (
            DriverPhase::PipelineBuilt,
            DriverAction::BeginPlayback,
        ),
        (DriverPhase::PipelineBuilt, DriverEvent::PlaybackStarted) => (
            DriverPhase::Playing,
            DriverAction::AwaitStreamEnd,
        ),
        (DriverPhase::Playing, DriverEvent::EndOfStream) => (
            DriverPhase::Draining,
            DriverAction::StopAndFinalize,
        ),
        (DriverPhase::Draining, DriverEvent::RunCompleted) => (
            DriverPhase::Closed,
            DriverAction::Halt,
        ),
        _ => (DriverPhase::Closed, DriverAction::AbortRun),
    }
}

/// Position of a phase in the forward-only lifecycle order.
pub open spec fn phase_rank(phase: DriverPhase) -> nat {
    match phase {
        DriverPhase::Uninitialized => 0,
        DriverPhase::PipelineBuilt => 1,
        DriverPhase::Playing => 2,
        DriverPhase::Draining => 3,
        DriverPhase::Closed => 4,
    }
}

/// One step of the driver: the front end reports what happened, the
/// driver answers with the next phase and the next action.
pub fn step(phase: DriverPhase, event: DriverEvent) -> (r: (DriverPhase, DriverAction))
    ensures
        r == spec_step(phase, event),
{
    match (phase, event) {
        (DriverPhase::Uninitialized, DriverEvent::BuildSucceeded) => (
            DriverPhase::PipelineBuilt,
            DriverAction::BeginPlayback,
        ),
        (DriverPhase::PipelineBuilt, DriverEvent::PlaybackStarted) => (
            DriverPhase::Playing,
            DriverAction::AwaitStreamEnd,
        ),
        (DriverPhase::Playing, DriverEvent::EndOfStream) => (
            DriverPhase::Draining,
            DriverAction::StopAndFinalize,
        ),
        (DriverPhase::Draining, DriverEvent::RunCompleted) => (
            DriverPhase::Closed,
            DriverAction::Halt,
        ),
        _ => (DriverPhase::Closed, DriverAction::AbortRun),
    }
}

/// The lifecycle only moves forward: no step returns the driver to an
/// earlier phase, so nothing is ever rebuilt or restarted.
pub proof fn lemma_phases_move_forward(phase: DriverPhase, event: DriverEvent)
    ensures
        phase_rank(spec_step(phase, event).0) >= phase_rank(phase),
{
}

/// Every failure is terminal: a failure event leads to the closed
/// phase with an abort, from every phase, and the closed phase is
/// never left.
pub proof fn lemma_failures_are_terminal(phase: DriverPhase, event: DriverEvent)
    ensures
        (event == DriverEvent::BuildFailed || event == DriverEvent::PlaybackRefused
            || event == DriverEvent::StreamError) ==> spec_step(phase, event) == (
        DriverPhase::Closed,
        DriverAction::AbortRun,
        ),
        spec_step(DriverPhase::Closed, event).0 == DriverPhase::Closed,
{
}

/// Finalization is ordered after playback has stopped: the one step
/// that asks the front end to pool the score is the end-of-stream step
/// out of the playing phase, and its action stops the pipeline before
/// the engine is flushed and the score pooled.
pub proof fn lemma_finalize_only_after_playing(phase: DriverPhase, event: DriverEvent)
    ensures
        spec_step(phase, event).1 == DriverAction::StopAndFinalize <==> (phase
            == DriverPhase::Playing && event == DriverEvent::EndOfStream),
{
}

/// The process exit status: zero exactly on success. Every failure —
/// usage, setup, decode, or contract violation — exits with one.
pub fn exit_code(outcome: RunOutcome) -> (c: i32)
    ensures
        c == 0 <==> outcome == RunOutcome::Success,
        c == 0 || c == 1,
{
    match outcome {
        RunOutcome::Success => 0,
        _ => 1,
    }
}

/// A run takes exactly one positional argument, the input file path,
/// beside the program name; any other command-line arity is a usage
/// error, reported before any work is done.
pub fn check_usage(arg_count: usize) -> (r: Result<(), RunOutcome>)
    ensures
        r is Ok <==> arg_count == 2,
        r is Err ==> r == Err::<(), RunOutcome>(RunOutcome::UsageError),
{
    if arg_count == 2 {
        Ok(())
    } else {
        Err(RunOutcome::UsageError)
    }
}

} // verus!
