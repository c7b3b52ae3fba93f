//! What the recording shortcut sets in motion.
//!
//! Pressing the shortcut toggles recording. Stopping a recording leads to a
//! transcription, whose end moves the workflow to `Done`, back to `Idle`
//! (cancelled) or to `Error`. Registering the shortcut with the platform is
//! left to the caller; which shortcut is registered is tracked here.

use crate::domain::{CyranoError, ErrorView, RecordingState};
pub use crate::services::clock::get_timestamp_ms;
use crate::services::recording_service::{elapsed_ms, RecordingFailedPayload};
use crate::services::recording_state::{set_recording_state, RecordingStore, StoreView};
use crate::services::transcription_service::cancelled_reason;
use vstd::prelude::*;
use vstd::string::StringExecFns;

verus! {

/// Default recording shortcut.
pub const DEFAULT_RECORDING_SHORTCUT: &'static str = "CommandOrControl+Shift+Space";

/// Payload of the notification that the recording shortcut was pressed.
#[derive(Debug, Clone, Copy, PartialEq, Eq, Structural)]
pub struct RecordingShortcutPayload {
    /// Unix timestamp in milliseconds at which the shortcut was pressed.
    pub timestamp: u64,
}

/// What a press of the recording shortcut asks for.
#[derive(Debug, Clone, Copy, PartialEq, Eq, Structural)]
pub enum ShortcutAction {
    /// No recording is active: start one.
    StartRecording,
    /// A recording is active: stop it and transcribe it.
    StopRecording,
}

/// How a transcription ended, as told to the user interface.
#[derive(Debug, Clone)]
pub enum TranscriptionEvent {
    /// The text is available.
    Complete { text: String, duration_ms: u32 },
    /// The user cancelled before the model was invoked.
    Cancelled,
    /// The transcription failed.
    Failed { error: CyranoError },
}

/// The shortcut currently registered for recording, if any.
pub struct ShortcutRegistry {
    current: Option<String>,
}

/// Whether an error tells that a transcription was cancelled.
pub open spec fn is_cancellation(error: ErrorView) -> bool {
    error == (ErrorView::TranscriptionFailed { reason: cancelled_reason() })
}

/// The workflow state in which a transcription that returned `transcribed`
/// leaves the workflow.
pub open spec fn state_after_transcription(
    transcribed: Result<String, CyranoError>,
) -> RecordingState {
    match transcribed {
        Ok(_) => RecordingState::Done,
        Err(error) => if is_cancellation(error@) {
            RecordingState::Idle
        } else {
            RecordingState::Error
        },
    }
}

/// What concluding a transcription that began at `started` and returned
/// `transcribed` at `now` does to the store, and the event that tells of it.
pub open spec fn transcription_concluded<S>(
    store: StoreView<S>,
    transcribed: Result<String, CyranoError>,
    started: u64,
    now: u64,
    store_after: StoreView<S>,
    event: TranscriptionEvent,
) -> bool {
    &&& store_after == store.with_state(state_after_transcription(transcribed))
    &&& match transcribed {
        Ok(text) => event == (TranscriptionEvent::Complete {
            text,
            duration_ms: elapsed_ms(started, now) as u32,
        }),
        Err(error) => if is_cancellation(error@) {
            event is Cancelled
        } else {
            event == (TranscriptionEvent::Failed { error })
        },
    }
}

/// Text of the error for a shortcut that the platform refused to register.
pub open spec fn registration_failure(shortcut: Seq<char>, cause: Seq<char>) -> Seq<char> {
    "Failed to register recording shortcut '"@ + shortcut + "': "@ + cause
}

/// What a press of the recording shortcut asks for: it toggles recording.
pub fn shortcut_action(recording: bool) -> (action: ShortcutAction)
    ensures
        action == if recording {
            ShortcutAction::StopRecording
        } else {
            ShortcutAction::StartRecording
        },
{
    if recording {
        ShortcutAction::StopRecording
    } else {
        ShortcutAction::StartRecording
    }
}

/// Whether `error` tells that a transcription was cancelled, which is no
/// failure to report.
pub fn is_cancelled_transcription(error: &CyranoError) -> (cancelled: bool)
    ensures
        cancelled == is_cancellation(error@),
{
    match error {
        CyranoError::TranscriptionFailed { reason } => {
            let cancelled = *reason == String::from_str("Transcription cancelled by user");
            cancelled
        },
        _ => false,
    }
}

/// Concludes a transcription that began at `started` and returned
/// `transcribed` at `now`: moves the workflow to `Done` on success, to
/// `Idle` where it was cancelled and to `Error` where it failed, and says
/// which event to send.
pub fn conclude_transcription<S>(
    store: &mut RecordingStore<S>,
    transcribed: Result<String, CyranoError>,
    started: u64,
    now: u64,
) -> (event: TranscriptionEvent)
    ensures
        transcription_concluded(old(store)@, transcribed, started, now, final(store)@, event),
{
    match transcribed {
        Ok(text) => {
            let duration: u64 = now.saturating_sub(started);
            set_recording_state(store, RecordingState::Done);
            TranscriptionEvent::Complete {
                text,
                duration_ms: #[verifier::truncate]
                (duration as u32),
            }
        },
        Err(error) => {
            if is_cancelled_transcription(&error) {
                set_recording_state(store, RecordingState::Idle);
                TranscriptionEvent::Cancelled
            } else {
                set_recording_state(store, RecordingState::Error);
                TranscriptionEvent::Failed { error }
            }
        },
    }
}

/// Records that the model could not be made ready for a transcription:
/// moves the workflow to `Error` and wraps the error for the notification.
pub fn model_unavailable<S>(store: &mut RecordingStore<S>, error: CyranoError) -> (payload:
    RecordingFailedPayload)
    ensures
        final(store)@ == old(store)@.with_state(RecordingState::Error),
        payload.error == error,
{
    set_recording_state(store, RecordingState::Error);
    RecordingFailedPayload { error }
}

impl ShortcutRegistry {
    /// The registered shortcut, if any.
    pub closed spec fn current(&self) -> Option<Seq<char>> {
        match self.current {
            Some(shortcut) => Some(shortcut@),
            None => None,
        }
    }

    /// A registry with nothing registered.
    pub fn new() -> (registry: Self)
        ensures
            registry.current() is None,
    {
        ShortcutRegistry { current: None }
    }

    /// Takes out the shortcut registered so far, for the caller to
    /// unregister it. Nothing is registered afterwards.
    pub fn begin_registration(&mut self) -> (previous: Option<String>)
        ensures
            final(self).current() is None,
            match previous {
                Some(shortcut) => old(self).current() == Some(shortcut@),
                None => old(self).current() is None,
            },
    {
        self.current.take()
    }

    /// Records how the platform answered the registration of `shortcut`:
    /// on success it becomes the registered shortcut, on failure nothing is
    /// registered and `RecordingFailed` tells the shortcut and the cause.
    pub fn finish_registration(&mut self, shortcut: &str, answer: Result<(), String>) -> (done:
        Result<(), CyranoError>)
        ensures
            match answer {
                Ok(_) => done is Ok && final(self).current() == Some(shortcut@),
                Err(cause) => {
                    &&& done matches Err(error)
                    &&& error@ == (ErrorView::RecordingFailed {
                        reason: registration_failure(shortcut@, cause@),
                    })
                    &&& final(self).current() is None
                },
            },
    {
        match answer {
            Ok(_) => {
                self.current = Some(String::from_str(shortcut));
                Ok(())
            },
            Err(cause) => {
                self.current = None;
                let mut reason = String::from_str("Failed to register recording shortcut '");
                reason.append(shortcut);
                reason.append("': ");
                reason.append(cause.as_str());
                Err(CyranoError::RecordingFailed { reason })
            },
        }
    }
}

} // verus!
