//! The services that orchestrate recording and transcription.

pub mod accessibility_service;
pub mod clock;
pub mod model_files;
pub mod output_service;
pub mod permission_service;
pub mod recording_service;
pub mod recording_state;
pub mod shortcut_service;
pub mod transcription_service;
