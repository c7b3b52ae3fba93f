//! The error type shared by every operation of the library.

use vstd::prelude::*;
use vstd::string::StringExecFns;

verus! {

/// Unified error type for all operations.
#[derive(Debug, Clone)]
pub enum CyranoError {
    /// The user has not granted microphone access.
    MicAccessDenied,
    /// No model file was found at the expected location.
    ModelNotFound { path: String },
    /// A model file was found but could not be loaded.
    ModelLoadFailed { reason: String },
    /// Transcription failed, was cancelled, or was attempted without a model.
    TranscriptionFailed { reason: String },
    /// Audio recording failed.
    RecordingFailed { reason: String },
    /// A clipboard operation failed.
    ClipboardFailed { reason: String },
    /// The system settings could not be opened.
    OpenSettingsFailed { reason: String },
}

/// Mathematical model of a [`CyranoError`]: the variant and its text.
pub enum ErrorView {
    MicAccessDenied,
    ModelNotFound { path: Seq<char> },
    ModelLoadFailed { reason: Seq<char> },
    TranscriptionFailed { reason: Seq<char> },
    RecordingFailed { reason: Seq<char> },
    ClipboardFailed { reason: Seq<char> },
    OpenSettingsFailed { reason: Seq<char> },
}

impl ErrorView {
    /// The human-readable message of the error.
    pub open spec fn message(self) -> Seq<char> {
        match self {
            ErrorView::MicAccessDenied => "Microphone access denied"@,
            ErrorView::ModelNotFound { path } => "Model not found at "@ + path,
            ErrorView::ModelLoadFailed { reason } => "Model loading failed: "@ + reason,
            ErrorView::TranscriptionFailed { reason } => "Transcription failed: "@ + reason,
            ErrorView::RecordingFailed { reason } => "Recording failed: "@ + reason,
            ErrorView::ClipboardFailed { reason } => "Clipboard operation failed: "@ + reason,
            ErrorView::OpenSettingsFailed { reason } => "Failed to open settings: "@ + reason,
        }
    }
}

impl View for CyranoError {
    type V = ErrorView;

    open spec fn view(&self) -> ErrorView {
        match self {
            CyranoError::MicAccessDenied => ErrorView::MicAccessDenied,
            CyranoError::ModelNotFound { path } => ErrorView::ModelNotFound { path: path@ },
            CyranoError::ModelLoadFailed { reason } => ErrorView::ModelLoadFailed {
                reason: reason@,
            },
            CyranoError::TranscriptionFailed { reason } => ErrorView::TranscriptionFailed {
                reason: reason@,
            },
            CyranoError::RecordingFailed { reason } => ErrorView::RecordingFailed {
                reason: reason@,
            },
            CyranoError::ClipboardFailed { reason } => ErrorView::ClipboardFailed {
                reason: reason@,
            },
            CyranoError::OpenSettingsFailed { reason } => ErrorView::OpenSettingsFailed {
                reason: reason@,
            },
        }
    }
}

impl CyranoError {
    /// Renders the error as the message shown to the user.
    pub fn to_string(&self) -> (text: String)
        ensures
            text@ == self@.message(),
    {
        match self {
            CyranoError::MicAccessDenied => String::from_str("Microphone access denied"),
            CyranoError::ModelNotFound { path } => String::from_str("Model not found at ").concat(
                path.as_str(),
            ),
            CyranoError::ModelLoadFailed { reason } => String::from_str(
                "Model loading failed: ",
            ).concat(reason.as_str()),
            CyranoError::TranscriptionFailed { reason } => String::from_str(
                "Transcription failed: ",
            ).concat(reason.as_str()),
            CyranoError::RecordingFailed { reason } => String::from_str(
                "Recording failed: ",
            ).concat(reason.as_str()),
            CyranoError::ClipboardFailed { reason } => String::from_str(
                "Clipboard operation failed: ",
            ).concat(reason.as_str()),
            CyranoError::OpenSettingsFailed { reason } => String::from_str(
                "Failed to open settings: ",
            ).concat(reason.as_str()),
        }
    }
}

} // verus!
