//! The lifecycle controller's shutdown path.
//!
//! The controller waits for one external interrupt signal, then cancels the
//! aggregator task and lets the process exit.  Shutdown follows a single
//! forward path with no retry: `Running`, `ShutdownRequested`,
//! `Terminating`, `Exited`.

use vstd::prelude::*;

verus! {

/// Where the process stands on its way down.
#[derive(Clone, Copy, PartialEq, Eq, Structural, Debug)]
pub enum LifecyclePhase {
    /// Normal operation; the pipeline is serving messages.
    Running,
    /// The interrupt signal was observed.
    ShutdownRequested,
    /// The aggregator task has been cancelled.
    Terminating,
    /// The process is done.
    Exited,
}

/// What the controller observes.
#[derive(Clone, Copy, PartialEq, Eq, Structural, Debug)]
pub enum LifecycleEvent {
    /// The external interrupt signal arrived.
    SignalReceived,
    /// The cancellation of the aggregator task was issued.
    CancelIssued,
    /// The process has finished cleaning up.
    ProcessExited,
}

/// How far along the single shutdown path a phase lies.
pub open spec fn phase_rank(phase: LifecyclePhase) -> nat {
    match phase {
        LifecyclePhase::Running => 0,
        LifecyclePhase::ShutdownRequested => 1,
        LifecyclePhase::Terminating => 2,
        LifecyclePhase::Exited => 3,
    }
}

/// The transition relation of the controller: each phase accepts exactly
/// the one event that moves it forward; every other event changes nothing.
pub open spec fn lifecycle_spec_step(phase: LifecyclePhase, event: LifecycleEvent) -> LifecyclePhase {
    match (phase, event) {
        (LifecyclePhase::Running, LifecycleEvent::SignalReceived) => LifecyclePhase::ShutdownRequested,
        (LifecyclePhase::ShutdownRequested, LifecycleEvent::CancelIssued) => LifecyclePhase::Terminating,
        (LifecyclePhase::Terminating, LifecycleEvent::ProcessExited) => LifecyclePhase::Exited,
        _ => phase,
    }
}

/// One observation of the controller.
pub fn lifecycle_step(phase: LifecyclePhase, event: LifecycleEvent) -> (r: LifecyclePhase)
    ensures
        r == lifecycle_spec_step(phase, event),
{
    match (phase, event) {
        (LifecyclePhase::Running, LifecycleEvent::SignalReceived) => LifecyclePhase::ShutdownRequested,
        (LifecyclePhase::ShutdownRequested, LifecycleEvent::CancelIssued) => LifecyclePhase::Terminating,
        (LifecyclePhase::Terminating, LifecycleEvent::ProcessExited) => LifecyclePhase::Exited,
        _ => phase,
    }
}

/// Law: shutdown only moves forward, one step at a time, along the single
/// path, and a finished process stays finished.
pub proof fn lemma_lifecycle_single_path(phase: LifecyclePhase, event: LifecycleEvent)
    ensures
        phase_rank(lifecycle_spec_step(phase, event)) >= phase_rank(phase),
        phase_rank(lifecycle_spec_step(phase, event)) <= phase_rank(phase) + 1,
        lifecycle_spec_step(LifecyclePhase::Exited, event) == LifecyclePhase::Exited,
{
}

} // verus!
