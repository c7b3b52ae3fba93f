use cyrano::domain::{CyranoError, PermissionStatus, RecordingState};

#[test]
fn test_mic_access_denied_message() {
    let err = CyranoError::MicAccessDenied;
    assert_eq!(err.to_string(), "Microphone access denied");
}

#[test]
fn test_model_not_found_message() {
    let err = CyranoError::ModelNotFound {
        path: "/path/to/model".to_string(),
    };
    assert_eq!(err.to_string(), "Model not found at /path/to/model");
}

#[test]
fn test_model_load_failed_message() {
    let err = CyranoError::ModelLoadFailed {
        reason: "out of memory".to_string(),
    };
    assert_eq!(err.to_string(), "Model loading failed: out of memory");
}

#[test]
fn test_transcription_failed_message() {
    let err = CyranoError::TranscriptionFailed {
        reason: "invalid audio format".to_string(),
    };
    assert_eq!(
        err.to_string(),
        "Transcription failed: invalid audio format"
    );
}

#[test]
fn test_recording_failed_message() {
    let err = CyranoError::RecordingFailed {
        reason: "device disconnected".to_string(),
    };
    assert_eq!(err.to_string(), "Recording failed: device disconnected");
}

#[test]
fn test_clipboard_failed_message() {
    let err = CyranoError::ClipboardFailed {
        reason: "access denied".to_string(),
    };
    assert_eq!(err.to_string(), "Clipboard operation failed: access denied");
}

#[test]
fn test_clipboard_failed_error_message() {
    let err = CyranoError::ClipboardFailed {
        reason: "Access denied".to_string(),
    };
    assert_eq!(err.to_string(), "Clipboard operation failed: Access denied");
}

#[test]
fn test_open_settings_failed_message() {
    let err = CyranoError::OpenSettingsFailed {
        reason: "no such pane".to_string(),
    };
    assert_eq!(err.to_string(), "Failed to open settings: no such pane");
}

#[test]
fn test_message_with_empty_reason() {
    let err = CyranoError::RecordingFailed {
        reason: String::new(),
    };
    assert_eq!(err.to_string(), "Recording failed: ");
}

#[test]
fn test_default_state_is_idle() {
    assert_eq!(RecordingState::default(), RecordingState::Idle);
}

#[test]
fn test_default_permission_status_is_not_determined() {
    assert_eq!(PermissionStatus::default(), PermissionStatus::NotDetermined);
}
