//! The recording overlay: a small floating window that shows the state of
//! the workflow.
//!
//! Creating, placing, showing and hiding the window is done by the caller.
//! What showing and dismissing it mean for the workflow is decided here.

use crate::domain::RecordingState;
use crate::services::recording_state::{set_recording_state, RecordingStore};
use vstd::prelude::*;

verus! {

/// Window label of the recording overlay.
pub const RECORDING_OVERLAY_LABEL: &'static str = "recording-overlay";

/// Width of the recording overlay, in logical pixels.
pub const RECORDING_OVERLAY_WIDTH: u32 = 200;

/// Height of the recording overlay, in logical pixels.
pub const RECORDING_OVERLAY_HEIGHT: u32 = 80;

/// Time within which the overlay is expected to render, in milliseconds.
pub const RENDER_TARGET_MS: u64 = 50;

/// Payload of the notification that the overlay was shown.
#[derive(Debug, Clone, Copy, PartialEq, Eq, Structural)]
pub struct RecordingOverlayShownPayload {
    /// Time in milliseconds that showing the overlay took.
    pub show_call_ms: u64,
}

/// Payload of the notification that the workflow state changed.
#[derive(Debug, Clone, Copy, PartialEq, Eq, Structural)]
pub struct RecordingStateChangedPayload {
    pub state: RecordingState,
}

/// What a toggle of the overlay asks for.
#[derive(Debug, Clone, Copy, PartialEq, Eq, Structural)]
pub enum OverlayAction {
    /// The overlay is hidden: show it.
    Show,
    /// The overlay is visible: dismiss it.
    Dismiss,
}

/// Records that the overlay was shown: the workflow moves to `Recording`.
/// Returns the notification to send.
pub fn show_recording_overlay<S>(store: &mut RecordingStore<S>) -> (changed:
    RecordingStateChangedPayload)
    ensures
        final(store)@ == old(store)@.with_state(RecordingState::Recording),
        changed.state == RecordingState::Recording,
{
    set_recording_state(store, RecordingState::Recording);
    RecordingStateChangedPayload { state: RecordingState::Recording }
}

/// Records that the overlay was asked to go away. An overlay that exists
/// but is hidden already is left alone and nothing is sent; otherwise the
/// workflow moves to `Idle` and the notification to send is returned.
/// `visible` is `None` where the overlay window does not exist.
pub fn dismiss_recording_overlay<S>(store: &mut RecordingStore<S>, visible: Option<bool>) -> (changed:
    Option<RecordingStateChangedPayload>)
    ensures
        visible == Some(false) ==> changed is None && final(store)@ == old(store)@,
        visible != Some(false) ==> {
            &&& changed == Some(RecordingStateChangedPayload { state: RecordingState::Idle })
            &&& final(store)@ == old(store)@.with_state(RecordingState::Idle)
        },
{
    match visible {
        Some(false) => None,
        _ => {
            set_recording_state(store, RecordingState::Idle);
            Some(RecordingStateChangedPayload { state: RecordingState::Idle })
        },
    }
}

/// What a toggle of the overlay asks for, given whether it is visible.
pub fn toggle_recording_overlay(visible: bool) -> (action: OverlayAction)
    ensures
        action == if visible {
            OverlayAction::Dismiss
        } else {
            OverlayAction::Show
        },
{
    if visible {
        OverlayAction::Dismiss
    } else {
        OverlayAction::Show
    }
}

/// Whether rendering the overlay took longer than its target.
pub fn render_exceeded_target(render_ms: u64) -> (late: bool)
    ensures
        late == (render_ms > RENDER_TARGET_MS),
{
    render_ms > RENDER_TARGET_MS
}

} // verus!
