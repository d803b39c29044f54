//! The decisions of the capture loop.
//!
//! A worker owns the capture handle of the operating system and does the
//! reading; what it does next is decided here. After each thing that
//! happens the worker calls `capture_step` with the state it is in and the
//! event, and gets back the state it is in now, the samples to append to the
//! session's buffer, and what to do next.
//!
//! Idle -> Running: the handle is acquired and the format applied.
//! Running: the worker polls: it tests the active flag, and where the flag
//! is set, reads the next chunk with a bounded wait.
//! Running -> Stopping: the flag was found cleared, or a read failed; what
//! the handle still holds is drained.
//! Stopping -> Idle: the handle is released, whether or not the drain
//! succeeded.

use vstd::prelude::*;
use crate::adapters::audio::convert::{convert_samples, is_conversion};
use crate::error::CaptureError;
use crate::ports::audio::{encoding_of_bits, AudioFormat};
use crate::ports::sample::Sample;

verus! {

/// Where the capture loop stands.
#[derive(Clone, Copy, Debug, PartialEq, Eq, Structural)]
pub enum CaptureState {
    Idle,
    Running,
    Stopping,
}

/// What happened to the worker.
#[derive(Debug)]
pub enum CaptureEvent {
    /// The handle was acquired and the negotiated format applied.
    Acquired,
    /// The handle could not be acquired, or the format could not be
    /// applied: the error is the one that the start returns.
    AcquireFailed(CaptureError),
    /// The active flag was found cleared.
    FlagCleared,
    /// A chunk was read.
    Chunk(Vec<u8>),
    /// The wait ended without data, or the chunk read was marked silent.
    Silence,
    /// A read failed, for the reason given.
    ReadFailed(String),
    /// What the handle still held was read.
    Drained(Vec<u8>),
    /// What the handle still held could not be read, for the reason given.
    DrainFailed(String),
    /// The handle was released.
    Released,
}

/// What the worker does next.
#[derive(Clone, Copy, Debug, PartialEq, Eq, Structural)]
pub enum CaptureAction {
    /// Test the active flag; where it is set, read the next chunk with a
    /// bounded wait.
    Poll,
    /// Read what the handle still holds.
    Drain,
    /// Clear the active flag, then read what the handle still holds.
    ClearFlagAndDrain,
    /// Release the handle and the resources of the subsystem.
    Release,
    /// Clear the active flag and end: nothing was captured.
    ClearFlagAndEnd,
    /// End.
    End,
}

/// The state and the action that follow an event. An event that cannot
/// happen in a state leaves the state as it is and repeats what the state
/// asks for.
pub open spec fn next_step(state: CaptureState, event: CaptureEvent) -> (
    CaptureState,
    CaptureAction,
) {
    match state {
        CaptureState::Idle => match event {
            CaptureEvent::Acquired => (CaptureState::Running, CaptureAction::Poll),
            CaptureEvent::AcquireFailed(_) => (CaptureState::Idle, CaptureAction::ClearFlagAndEnd),
            _ => (CaptureState::Idle, CaptureAction::End),
        },
        CaptureState::Running => match event {
            CaptureEvent::FlagCleared => (CaptureState::Stopping, CaptureAction::Drain),
            CaptureEvent::ReadFailed(_) => (
                CaptureState::Stopping,
                CaptureAction::ClearFlagAndDrain,
            ),
            _ => (CaptureState::Running, CaptureAction::Poll),
        },
        CaptureState::Stopping => match event {
            CaptureEvent::Released => (CaptureState::Idle, CaptureAction::End),
            _ => (CaptureState::Stopping, CaptureAction::Release),
        },
    }
}

/// The bytes whose samples an event adds to the buffer: those of a chunk
/// read while running, and those drained while stopping.
pub open spec fn captured_bytes(state: CaptureState, event: CaptureEvent) -> Option<Seq<u8>> {
    match (state, event) {
        (CaptureState::Running, CaptureEvent::Chunk(data)) => Some(data@),
        (CaptureState::Stopping, CaptureEvent::Drained(data)) => Some(data@),
        _ => None,
    }
}

/// The failure that an event reports: the error of a failed start as it
/// is, and an `IoFailure` with the reason for a read that failed while running
/// and for a drain that failed while stopping.
pub open spec fn reported_failure(state: CaptureState, event: CaptureEvent) -> Option<CaptureError> {
    match (state, event) {
        (CaptureState::Idle, CaptureEvent::AcquireFailed(error)) => Some(error),
        (CaptureState::Running, CaptureEvent::ReadFailed(reason)) => Some(
            CaptureError::IoFailure(reason),
        ),
        (CaptureState::Stopping, CaptureEvent::DrainFailed(reason)) => Some(
            CaptureError::IoFailure(reason),
        ),
        _ => None,
    }
}

/// One decision of the capture loop.
pub struct CaptureStep {
    /// The state after the event.
    pub state: CaptureState,
    /// The samples to append to the buffer of the session.
    pub samples: Vec<Sample>,
    /// What to do next.
    pub action: CaptureAction,
    /// The failure that the event reported, if it reported one. The failure
    /// of a start goes to the caller of the start; the others are for the log,
    /// and the loop goes on to release its handle.
    pub failure: Option<CaptureError>,
}

/// Decides what follows `event` in `state`, for a session in `format`.
/// Samples come only from a chunk read while running and from what was
/// drained while stopping: they are the conversion of those bytes, and a
/// format whose encoding is not known gives none.
pub fn capture_step(state: CaptureState, event: CaptureEvent, format: &AudioFormat) -> (step:
    CaptureStep)
    ensures
        (step.state, step.action) == next_step(state, event),
        step.failure == reported_failure(state, event),
        match captured_bytes(state, event) {
            Some(data) => match encoding_of_bits(format.bits_per_sample) {
                Some(encoding) => is_conversion(step.samples@, data, encoding),
                None => step.samples@.len() == 0,
            },
            None => step.samples@.len() == 0,
        },
{
    match state {
        CaptureState::Idle => match event {
            CaptureEvent::Acquired => CaptureStep {
                state: CaptureState::Running,
                samples: Vec::new(),
                action: CaptureAction::Poll,
                failure: None,
            },
            CaptureEvent::AcquireFailed(error) => CaptureStep {
                state: CaptureState::Idle,
                samples: Vec::new(),
                action: CaptureAction::ClearFlagAndEnd,
                failure: Some(error),
            },
            _ => CaptureStep {
                state: CaptureState::Idle,
                samples: Vec::new(),
                action: CaptureAction::End,
                failure: None,
            },
        },
        CaptureState::Running => match event {
            CaptureEvent::FlagCleared => CaptureStep {
                state: CaptureState::Stopping,
                samples: Vec::new(),
                action: CaptureAction::Drain,
                failure: None,
            },
            CaptureEvent::ReadFailed(reason) => CaptureStep {
                state: CaptureState::Stopping,
                samples: Vec::new(),
                action: CaptureAction::ClearFlagAndDrain,
                failure: Some(CaptureError::IoFailure(reason)),
            },
            CaptureEvent::Chunk(data) => CaptureStep {
                state: CaptureState::Running,
                samples: convert_samples(data.as_slice(), format),
                action: CaptureAction::Poll,
                failure: None,
            },
            _ => CaptureStep {
                state: CaptureState::Running,
                samples: Vec::new(),
                action: CaptureAction::Poll,
                failure: None,
            },
        },
        CaptureState::Stopping => match event {
            CaptureEvent::Released => CaptureStep {
                state: CaptureState::Idle,
                samples: Vec::new(),
                action: CaptureAction::End,
                failure: None,
            },
            CaptureEvent::Drained(data) => CaptureStep {
                state: CaptureState::Stopping,
                samples: convert_samples(data.as_slice(), format),
                action: CaptureAction::Release,
                failure: None,
            },
            CaptureEvent::DrainFailed(reason) => CaptureStep {
                state: CaptureState::Stopping,
                samples: Vec::new(),
                action: CaptureAction::Release,
                failure: Some(CaptureError::IoFailure(reason)),
            },
            _ => CaptureStep {
                state: CaptureState::Stopping,
                samples: Vec::new(),
                action: CaptureAction::Release,
                failure: None,
            },
        },
    }
}

/// The loop leaves `Running` only for `Stopping`, and `Stopping` only for
/// `Idle` on the release of the handle: no path ends a run without the
/// release.
pub proof fn lemma_release_ends_every_run(state: CaptureState, event: CaptureEvent)
    ensures
        state == CaptureState::Running ==> next_step(state, event).0 != CaptureState::Idle,
        state == CaptureState::Stopping && next_step(state, event).0 == CaptureState::Idle
            ==> event is Released,
        state == CaptureState::Stopping && !(event is Released) ==> next_step(state, event).1
            == CaptureAction::Release,
{
}

/// A worker that could not acquire its handle never runs: it stays idle,
/// appends nothing, clears the active flag, and hands on the error.
pub proof fn lemma_failed_acquire_captures_nothing(error: CaptureError)
    ensures
        next_step(CaptureState::Idle, CaptureEvent::AcquireFailed(error)) == (
            CaptureState::Idle,
            CaptureAction::ClearFlagAndEnd,
        ),
        captured_bytes(CaptureState::Idle, CaptureEvent::AcquireFailed(error)) is None,
        reported_failure(CaptureState::Idle, CaptureEvent::AcquireFailed(error)) == Some(error),
{
}

} // verus!
