//! Workflow and permission states.

use vstd::prelude::*;

verus! {

/// Where the recording/transcription workflow currently stands.
#[derive(Debug, Clone, Copy, PartialEq, Eq, Structural)]
pub enum RecordingState {
    /// No recording in progress, ready to start.
    Idle,
    /// Audio is being captured from the microphone.
    Recording,
    /// Audio has been captured and is being transcribed.
    Transcribing,
    /// Transcription finished and its result is available.
    Done,
    /// Recording or transcription failed.
    Error,
}

impl Default for RecordingState {
    fn default() -> (state: Self)
        ensures
            state == RecordingState::Idle,
    {
        RecordingState::Idle
    }
}

/// What the platform says about access to a protected capability.
#[derive(Debug, Clone, Copy, PartialEq, Eq, Structural)]
pub enum PermissionStatus {
    /// The user granted access.
    Granted,
    /// The user explicitly denied access.
    Denied,
    /// Access has not been requested yet.
    NotDetermined,
}

impl Default for PermissionStatus {
    fn default() -> (status: Self)
        ensures
            status == PermissionStatus::NotDetermined,
    {
        PermissionStatus::NotDetermined
    }
}

} // verus!
