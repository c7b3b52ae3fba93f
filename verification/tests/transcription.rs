use cyrano::domain::CyranoError;
use cyrano::infrastructure::memory::MemoryTranscriber;
use cyrano::services::model_files::{
    has_bin_extension, join_path, models_directory_in, select_model_file, DirectoryListing,
};
use cyrano::services::recording_service::get_timestamp_ms;
use cyrano::services::transcription_service::{
    check_and_unload_if_idle, clear_cancellation, ensure_model_loaded, ensure_model_loaded_at,
    get_model_path, get_model_status, get_models_directory, is_cancelled, is_idle,
    is_model_loaded, record_use, request_cancellation, transcribe, unload_if_idle_at,
    unload_model, CancellationFlag, TranscriptionService, KEEP_ALIVE_MS,
};
use cyrano::traits::transcriber::Transcriber;

const MODEL: &str = "/models/ggml-base.bin";

fn service() -> TranscriptionService<MemoryTranscriber<f32>> {
    TranscriptionService::new(MemoryTranscriber::new(
        Some(MODEL.to_string()),
        "hello world".to_string(),
    ))
}

fn found() -> Result<String, CyranoError> {
    Ok(MODEL.to_string())
}

fn missing() -> Result<String, CyranoError> {
    Err(CyranoError::ModelNotFound {
        path: "/models (no .bin files found)".to_string(),
    })
}

#[test]
fn test_check_model_status_returns_valid_struct() {
    let status = get_model_status(&service(), found);
    // Should return a valid struct (may or may not have model loaded)
    // Just verify it doesn't panic
    let _ = status.loaded;
    let _ = status.path;
}

#[test]
fn test_get_model_directory_returns_path() {
    let result = get_models_directory();
    assert!(result.is_ok());
    let path = result.unwrap();
    assert!(path.contains(".cyrano"));
    assert!(path.contains("models"));
}

#[test]
fn test_model_not_loaded_at_startup() {
    // Fresh state - model should not be loaded
    let service = service();
    assert!(!is_model_loaded(&service));
    assert!(!service.runtime().is_loaded());
    assert_eq!(service.last_used_at(), None);
}

#[test]
fn test_model_path_resolution() {
    // Test that get_models_directory returns expected path
    let result = get_models_directory();
    assert!(result.is_ok());
    let path = result.unwrap();
    assert!(path.contains(".cyrano"));
    assert!(path.contains("models"));
}

#[test]
fn transcription_service_test_model_not_found_error() {
    // When no models directory exists or no .bin files, should return error
    let result = get_model_path(|_: &str| DirectoryListing::Missing);
    // We just verify it doesn't panic
    let _ = result;
}

#[test]
fn test_model_status_when_not_loaded() {
    let service = service();
    let status = get_model_status(&service, found);
    // The status should at least not panic
    assert!(status.loaded == status.path.is_some() || !status.loaded);
    assert!(!status.loaded);
    assert!(status.path.is_none());
}

#[test]
fn test_transcribe_requires_loaded_model() {
    // When model is not loaded, transcribe should fail
    let mut service = service();
    let mut flag = CancellationFlag::new();
    let samples = vec![0.0f32; 16000];
    let result = transcribe(&mut service, &mut flag, &samples);
    // Expect TranscriptionFailed when model not loaded
    assert!(result.is_err());
    if let Err(CyranoError::TranscriptionFailed { reason }) = result {
        assert!(
            reason.contains("not loaded"),
            "Expected 'not loaded' in error message, got: {reason}"
        );
    } else {
        panic!("Expected TranscriptionFailed error");
    }
}

#[test]
fn test_transcribe_empty_audio_returns_empty_string() {
    let mut service = service();
    let mut flag = CancellationFlag::new();
    // Ensure cancellation is cleared
    clear_cancellation(&mut flag);

    let samples: Vec<f32> = vec![];
    let result = transcribe(&mut service, &mut flag, &samples);

    // Either empty audio handling or model-not-loaded error is acceptable
    match result {
        Ok(text) => assert!(text.is_empty(), "Empty audio should produce empty text"),
        Err(CyranoError::TranscriptionFailed { reason }) => {
            assert!(
                reason.contains("not loaded") || reason.contains("Lock failed"),
                "Unexpected error: {reason}"
            );
        }
        Err(e) => panic!("Unexpected error type: {}", e.to_string()),
    }
}

#[test]
fn test_cancellation_flag_operations() {
    let mut flag = CancellationFlag::new();
    // Test that clear_cancellation sets flag to false
    clear_cancellation(&mut flag);
    // After clearing, check that we can set and see the flag
    request_cancellation(&mut flag);
    let was_set = is_cancelled(&flag);
    clear_cancellation(&mut flag); // Always clean up

    assert!(was_set, "Cancellation flag should be settable and readable");
}

#[test]
fn test_transcribe_respects_cancellation() {
    // When cancelled, transcribe should return error immediately
    let mut service = service();
    let mut flag = CancellationFlag::new();
    clear_cancellation(&mut flag);
    request_cancellation(&mut flag);

    let samples = vec![0.0f32; 16000];
    let result = transcribe(&mut service, &mut flag, &samples);

    assert!(result.is_err(), "transcribe() should return an error");
    if let Err(CyranoError::TranscriptionFailed { reason }) = result {
        assert!(
            reason.contains("cancelled") || reason.contains("not loaded"),
            "Expected 'cancelled' or 'not loaded' in error message, got: {reason}"
        );
    } else {
        panic!("Expected TranscriptionFailed error");
    }

    // Clean up any flag state
    clear_cancellation(&mut flag);
}

#[test]
fn test_new_flag_is_clear_and_operations_are_idempotent() {
    let mut flag = CancellationFlag::new();
    assert!(!is_cancelled(&flag));
    request_cancellation(&mut flag);
    request_cancellation(&mut flag);
    assert!(is_cancelled(&flag));
    clear_cancellation(&mut flag);
    clear_cancellation(&mut flag);
    assert!(!is_cancelled(&flag));
}

#[test]
fn test_ensure_model_loaded_loads_lazily() {
    let mut service = service();
    let before = get_timestamp_ms();
    ensure_model_loaded(&mut service, found).expect("the model file exists");
    assert!(is_model_loaded(&service));
    assert_eq!(service.runtime().load_count(), 1);
    assert!(service.last_used_at().expect("marked as used") >= before);
}

#[test]
fn test_ensure_model_loaded_reuses_a_fresh_model_without_locating() {
    let mut service = service();
    ensure_model_loaded(&mut service, found).unwrap();
    service.set_last_used(Some(0));
    service.set_last_used(Some(get_timestamp_ms()));
    // the locator is not asked: its failure does not matter
    ensure_model_loaded(&mut service, missing).expect("a loaded model is reused");
    assert_eq!(service.runtime().load_count(), 1);
    assert!(is_model_loaded(&service));
}

#[test]
fn test_ensure_model_loaded_passes_on_locator_error() {
    let mut service = service();
    let result = ensure_model_loaded(&mut service, missing);
    match result {
        Err(CyranoError::ModelNotFound { path }) => {
            assert_eq!(path, "/models (no .bin files found)");
        }
        _ => panic!("Expected ModelNotFound error"),
    }
    assert!(!is_model_loaded(&service));
    assert_eq!(service.last_used_at(), None);
}

#[test]
fn test_ensure_model_loaded_passes_on_load_error() {
    let mut service = service();
    let result = ensure_model_loaded(&mut service, || Ok("/elsewhere/other.bin".to_string()));
    match result {
        Err(CyranoError::ModelNotFound { path }) => assert_eq!(path, "/elsewhere/other.bin"),
        _ => panic!("Expected ModelNotFound error"),
    }
    assert!(!is_model_loaded(&service));
    assert_eq!(service.last_used_at(), None);
}

#[test]
fn test_ensure_model_loaded_after_idle_threshold_reloads() {
    let mut service = service();
    ensure_model_loaded(&mut service, found).unwrap();
    assert_eq!(service.runtime().load_count(), 1);
    // last use far in the past
    service.set_last_used(Some(0));
    let before = get_timestamp_ms();
    ensure_model_loaded(&mut service, found).expect("the model is loaded again");
    assert!(is_model_loaded(&service));
    assert_eq!(service.runtime().load_count(), 2);
    assert!(service.last_used_at().unwrap() >= before);
}

#[test]
fn test_ensure_model_loaded_after_idle_threshold_does_not_reuse_stale_model() {
    let mut service = service();
    ensure_model_loaded(&mut service, found).unwrap();
    service.set_last_used(Some(0));
    // the model file is gone: the stale model must not be kept
    let result = ensure_model_loaded(&mut service, missing);
    assert!(matches!(result, Err(CyranoError::ModelNotFound { .. })));
    assert!(!is_model_loaded(&service));
    assert_eq!(service.last_used_at(), None);
}

#[test]
fn test_is_idle_threshold() {
    assert_eq!(KEEP_ALIVE_MS, 30 * 60 * 1000);
    assert!(!is_idle(None, u64::MAX));
    assert!(!is_idle(Some(0), 0));
    assert!(!is_idle(Some(0), 1_800_000));
    assert!(is_idle(Some(0), 1_800_001));
    assert!(!is_idle(Some(5_000), 1_805_000));
    assert!(is_idle(Some(5_000), 1_805_001));
    // a clock that went backwards never makes a model idle
    assert!(!is_idle(Some(2_000_000), 1_000));
}

#[test]
fn test_unload_model_forgets_last_use() {
    let mut service = service();
    ensure_model_loaded(&mut service, found).unwrap();
    unload_model(&mut service).expect("unload should succeed");
    assert!(!is_model_loaded(&service));
    assert_eq!(service.last_used_at(), None);
    // unloading when nothing is loaded is fine too
    unload_model(&mut service).expect("unload should succeed");
    assert!(!is_model_loaded(&service));
}

#[test]
fn test_check_and_unload_if_idle() {
    let mut service = service();
    // never used: nothing to do
    assert!(matches!(check_and_unload_if_idle(&mut service), Ok(false)));
    ensure_model_loaded(&mut service, found).unwrap();
    // just used: kept
    assert!(matches!(check_and_unload_if_idle(&mut service), Ok(false)));
    assert!(is_model_loaded(&service));
    // idle for far too long: unloaded
    service.set_last_used(Some(0));
    assert!(matches!(check_and_unload_if_idle(&mut service), Ok(true)));
    assert!(!is_model_loaded(&service));
    assert_eq!(service.last_used_at(), None);
    assert!(matches!(check_and_unload_if_idle(&mut service), Ok(false)));
}

#[test]
fn test_check_and_unload_if_idle_leaves_an_unloaded_runtime_alone() {
    let mut service = service();
    service.set_last_used(Some(0));
    assert!(matches!(check_and_unload_if_idle(&mut service), Ok(false)));
    assert_eq!(service.last_used_at(), Some(0));
}

#[test]
fn test_transcribe_runs_the_model_and_marks_it_used() {
    let mut service = service();
    let mut flag = CancellationFlag::new();
    ensure_model_loaded(&mut service, found).unwrap();
    service.set_last_used(Some(1));
    let before = get_timestamp_ms();
    let text = transcribe(&mut service, &mut flag, &[0.0_f32, 0.1]).expect("the model answers");
    assert_eq!(text, "hello world");
    assert!(service.last_used_at().unwrap() >= before);
    assert!(!is_cancelled(&flag));
}

#[test]
fn test_transcribe_empty_input_with_loaded_model_returns_empty_text() {
    let mut service = service();
    let mut flag = CancellationFlag::new();
    ensure_model_loaded(&mut service, found).unwrap();
    service.set_last_used(Some(7));
    let text = transcribe(&mut service, &mut flag, &[]).expect("empty input succeeds");
    assert_eq!(text, "");
    // the model was not invoked: the time of last use is untouched
    assert_eq!(service.last_used_at(), Some(7));
}

#[test]
fn test_cancellation_stops_one_attempt_only() {
    let mut service = service();
    let mut flag = CancellationFlag::new();
    ensure_model_loaded(&mut service, found).unwrap();
    service.set_last_used(Some(7));
    request_cancellation(&mut flag);
    let samples = vec![0.0f32; 16];
    match transcribe(&mut service, &mut flag, &samples) {
        Err(CyranoError::TranscriptionFailed { reason }) => {
            assert_eq!(reason, "Transcription cancelled by user");
        }
        _ => panic!("Expected TranscriptionFailed error"),
    }
    assert!(!is_cancelled(&flag));
    assert_eq!(service.last_used_at(), Some(7));
    assert!(is_model_loaded(&service));
    let text = transcribe(&mut service, &mut flag, &samples).expect("not cancelled any more");
    assert_eq!(text, "hello world");
}

#[test]
fn test_cancellation_comes_before_the_other_conditions() {
    let mut service = service();
    let mut flag = CancellationFlag::new();
    request_cancellation(&mut flag);
    // no model loaded and no samples: still reported as cancelled
    match transcribe(&mut service, &mut flag, &[]) {
        Err(CyranoError::TranscriptionFailed { reason }) => {
            assert_eq!(reason, "Transcription cancelled by user");
        }
        _ => panic!("Expected TranscriptionFailed error"),
    }
    match transcribe(&mut service, &mut flag, &[]) {
        Err(CyranoError::TranscriptionFailed { reason }) => {
            assert_eq!(reason, "Model not loaded - call ensure_model_loaded first");
        }
        _ => panic!("Expected TranscriptionFailed error"),
    }
}

#[test]
fn test_model_status_when_loaded() {
    let mut service = service();
    ensure_model_loaded(&mut service, found).unwrap();
    let status = get_model_status(&service, found);
    assert!(status.loaded);
    assert_eq!(status.path.as_deref(), Some(MODEL));
    let status = get_model_status(&service, missing);
    assert!(status.loaded);
    assert!(status.path.is_none());
}

#[test]
fn test_memory_transcriber_without_model_fails() {
    let runtime: MemoryTranscriber<f32> = MemoryTranscriber::new(None, "text".to_string());
    let samples = vec![0.0f32; 16000];
    let result = runtime.transcribe(&samples);
    assert!(result.is_err());
    if let Err(CyranoError::TranscriptionFailed { reason }) = result {
        assert!(reason.contains("not loaded"));
    } else {
        panic!("Expected TranscriptionFailed error");
    }
}

#[test]
fn test_memory_transcriber_load_and_unload() {
    let mut runtime: MemoryTranscriber<f32> =
        MemoryTranscriber::new(Some(MODEL.to_string()), "text".to_string());
    let result = runtime.load_model("/nonexistent/model.bin");
    assert!(result.is_err());
    if let Err(CyranoError::ModelNotFound { path }) = result {
        assert!(path.contains("nonexistent"));
    } else {
        panic!("Expected ModelNotFound error");
    }
    assert!(!runtime.is_loaded());
    assert!(runtime.load_model(MODEL).is_ok());
    assert!(runtime.is_loaded());
    assert_eq!(runtime.transcribe(&[0.5]).unwrap(), "text");
    assert!(runtime.unload().is_ok());
    assert!(!runtime.is_loaded());
    assert_eq!(runtime.load_count(), 1);
}

#[test]
fn test_join_path() {
    assert_eq!(join_path("/home/alice", ".cyrano"), "/home/alice/.cyrano");
    assert_eq!(join_path("/", ".cyrano"), "/.cyrano");
    assert_eq!(join_path("/home/alice/", "models"), "/home/alice/models");
    assert_eq!(join_path("", "models"), "models");
    assert_eq!(join_path("/h\u{e9}", "x"), "/h\u{e9}/x");
}

#[test]
fn test_models_directory_in() {
    assert_eq!(
        models_directory_in(Some("/Users/alice".to_string())).unwrap(),
        "/Users/alice/.cyrano/models"
    );
    match models_directory_in(None) {
        Err(CyranoError::ModelNotFound { path }) => {
            assert_eq!(path, "~/.cyrano/models/ (could not resolve home directory)");
        }
        _ => panic!("Expected ModelNotFound error"),
    }
}

#[test]
fn test_has_bin_extension() {
    assert!(has_bin_extension("/models/ggml-base.bin"));
    assert!(has_bin_extension("a.bin"));
    assert!(has_bin_extension("/models/..bin"));
    assert!(has_bin_extension("/models/archive.tar.bin"));
    assert!(!has_bin_extension(".bin"));
    assert!(!has_bin_extension("/models/.bin"));
    assert!(!has_bin_extension("/models/ggml-base.BIN"));
    assert!(!has_bin_extension("/models/ggml-base.bin.part"));
    assert!(!has_bin_extension("/models/ggml-base"));
    assert!(!has_bin_extension("/models/bin"));
    assert!(!has_bin_extension(""));
    assert!(has_bin_extension("/mod\u{e8}les/mod\u{e8}le.bin"));
}

#[test]
fn test_select_model_file() {
    let directory = "/home/alice/.cyrano/models";
    match select_model_file(directory, &DirectoryListing::Missing) {
        Err(CyranoError::ModelNotFound { path }) => assert_eq!(path, directory),
        _ => panic!("Expected ModelNotFound error"),
    }
    let unreadable = DirectoryListing::Unreadable {
        reason: "Permission denied (os error 13)".to_string(),
    };
    match select_model_file(directory, &unreadable) {
        Err(CyranoError::ModelNotFound { path }) => assert_eq!(
            path,
            "/home/alice/.cyrano/models: Permission denied (os error 13)"
        ),
        _ => panic!("Expected ModelNotFound error"),
    }
    let none = DirectoryListing::Entries {
        paths: vec![
            "/home/alice/.cyrano/models/readme.txt".to_string(),
            "/home/alice/.cyrano/models/.bin".to_string(),
        ],
    };
    match select_model_file(directory, &none) {
        Err(CyranoError::ModelNotFound { path }) => {
            assert_eq!(path, "/home/alice/.cyrano/models (no .bin files found)");
        }
        _ => panic!("Expected ModelNotFound error"),
    }
    let empty = DirectoryListing::Entries { paths: Vec::new() };
    assert!(select_model_file(directory, &empty).is_err());
    let several = DirectoryListing::Entries {
        paths: vec![
            "/home/alice/.cyrano/models/readme.txt".to_string(),
            "/home/alice/.cyrano/models/small.bin".to_string(),
            "/home/alice/.cyrano/models/large.bin".to_string(),
        ],
    };
    assert_eq!(
        select_model_file(directory, &several).unwrap(),
        "/home/alice/.cyrano/models/small.bin"
    );
}

#[test]
fn test_get_model_path_lists_the_models_directory() {
    let located = get_model_path(|directory: &str| DirectoryListing::Entries {
        paths: vec![format!("{directory}/notes.md"), format!("{directory}/ggml.bin")],
    })
    .expect("a model file is listed");
    assert!(located.ends_with("/.cyrano/models/ggml.bin"));
    let located = get_model_path(|_: &str| DirectoryListing::Missing);
    match located {
        Err(CyranoError::ModelNotFound { path }) => assert!(path.ends_with("/.cyrano/models")),
        _ => panic!("Expected ModelNotFound error"),
    }
}

/// A runtime whose load and unload can be made to fail.
struct FlakyTranscriber {
    loaded: bool,
    fail_load: bool,
    fail_unload: bool,
    unloads: u32,
}

impl FlakyTranscriber {
    fn loaded() -> Self {
        FlakyTranscriber {
            loaded: true,
            fail_load: false,
            fail_unload: false,
            unloads: 0,
        }
    }
}

impl Transcriber for FlakyTranscriber {
    type Sample = f32;

    fn load_model(&mut self, _path: &str) -> Result<(), CyranoError> {
        if self.fail_load {
            return Err(CyranoError::ModelLoadFailed {
                reason: "out of memory".to_string(),
            });
        }
        self.loaded = true;
        Ok(())
    }

    fn transcribe(&self, samples: &[f32]) -> Result<String, CyranoError> {
        if samples.len() > 3 {
            return Err(CyranoError::TranscriptionFailed {
                reason: "Transcription failed: too long".to_string(),
            });
        }
        Ok(format!("{} samples", samples.len()))
    }

    fn is_loaded(&self) -> bool {
        self.loaded
    }

    fn unload(&mut self) -> Result<(), CyranoError> {
        self.unloads += 1;
        if self.fail_unload {
            return Err(CyranoError::ModelLoadFailed {
                reason: "busy".to_string(),
            });
        }
        self.loaded = false;
        Ok(())
    }
}

#[test]
fn test_ensure_model_loaded_passes_on_model_load_failed() {
    let mut runtime = FlakyTranscriber::loaded();
    runtime.loaded = false;
    runtime.fail_load = true;
    let mut service = TranscriptionService::new(runtime);
    match ensure_model_loaded(&mut service, found) {
        Err(CyranoError::ModelLoadFailed { reason }) => assert_eq!(reason, "out of memory"),
        _ => panic!("Expected ModelLoadFailed error"),
    }
    assert!(!is_model_loaded(&service));
    assert_eq!(service.last_used_at(), None);
}

#[test]
fn test_ensure_model_loaded_passes_on_unload_error_and_keeps_last_use() {
    let mut runtime = FlakyTranscriber::loaded();
    runtime.fail_unload = true;
    let mut service = TranscriptionService::new(runtime);
    service.set_last_used(Some(0));
    match ensure_model_loaded(&mut service, found) {
        Err(CyranoError::ModelLoadFailed { reason }) => assert_eq!(reason, "busy"),
        _ => panic!("Expected the error of the unload"),
    }
    assert_eq!(service.last_used_at(), Some(0));
    assert_eq!(service.runtime().unloads, 1);
}

#[test]
fn test_ensure_model_loaded_unloads_only_when_idle() {
    let mut service = TranscriptionService::new(FlakyTranscriber::loaded());
    ensure_model_loaded(&mut service, found).unwrap();
    assert_eq!(service.runtime().unloads, 0);
    service.set_last_used(Some(get_timestamp_ms().saturating_sub(KEEP_ALIVE_MS / 2)));
    ensure_model_loaded(&mut service, found).unwrap();
    assert_eq!(service.runtime().unloads, 0);
    service.set_last_used(Some(get_timestamp_ms().saturating_sub(2 * KEEP_ALIVE_MS)));
    ensure_model_loaded(&mut service, found).unwrap();
    assert_eq!(service.runtime().unloads, 1);
}

#[test]
fn test_transcribe_passes_on_the_answer_of_the_model() {
    let mut service = TranscriptionService::new(FlakyTranscriber::loaded());
    let mut flag = CancellationFlag::new();
    assert_eq!(
        transcribe(&mut service, &mut flag, &[0.0, 0.0]).unwrap(),
        "2 samples"
    );
    let used = service.last_used_at();
    assert!(used.is_some());
    service.set_last_used(Some(3));
    match transcribe(&mut service, &mut flag, &[0.0; 4]) {
        Err(CyranoError::TranscriptionFailed { reason }) => {
            assert_eq!(reason, "Transcription failed: too long");
        }
        _ => panic!("Expected TranscriptionFailed error"),
    }
    // a failed transcription does not count as a use
    assert_eq!(service.last_used_at(), Some(3));
}

#[test]
fn test_unload_model_passes_on_error_and_keeps_last_use() {
    let mut runtime = FlakyTranscriber::loaded();
    runtime.fail_unload = true;
    let mut service = TranscriptionService::new(runtime);
    service.set_last_used(Some(9));
    assert!(matches!(
        unload_model(&mut service),
        Err(CyranoError::ModelLoadFailed { .. })
    ));
    assert_eq!(service.last_used_at(), Some(9));
    assert!(matches!(
        check_and_unload_if_idle(&mut service),
        Err(CyranoError::ModelLoadFailed { .. })
    ));
    assert_eq!(service.last_used_at(), Some(9));
}

/// A runtime that keeps a record of what was asked of it. Each load hands
/// out a new handle.
struct RecordingTranscriber {
    handle: Option<u32>,
    next_handle: u32,
    asked: Vec<String>,
}

impl RecordingTranscriber {
    fn new() -> Self {
        RecordingTranscriber {
            handle: None,
            next_handle: 1,
            asked: Vec::new(),
        }
    }
}

impl Transcriber for RecordingTranscriber {
    type Sample = f32;

    fn load_model(&mut self, path: &str) -> Result<(), CyranoError> {
        self.asked.push(format!("load {path}"));
        self.handle = Some(self.next_handle);
        self.next_handle += 1;
        Ok(())
    }

    fn transcribe(&self, samples: &[f32]) -> Result<String, CyranoError> {
        Ok(format!("{} samples", samples.len()))
    }

    fn is_loaded(&self) -> bool {
        self.handle.is_some()
    }

    fn unload(&mut self) -> Result<(), CyranoError> {
        self.asked.push("unload".to_string());
        self.handle = None;
        Ok(())
    }
}

#[test]
fn test_ensure_model_loaded_at_marks_use_at_the_reading() {
    let mut service = TranscriptionService::new(RecordingTranscriber::new());
    ensure_model_loaded_at(&mut service, 1_000, found).unwrap();
    assert_eq!(service.last_used_at(), Some(1_000));
    assert_eq!(service.runtime().handle, Some(1));
    // exactly at the threshold: not idle, the model is kept and its use refreshed
    ensure_model_loaded_at(&mut service, 1_000 + KEEP_ALIVE_MS, missing).unwrap();
    assert_eq!(service.last_used_at(), Some(1_000 + KEEP_ALIVE_MS));
    assert_eq!(service.runtime().handle, Some(1));
    assert_eq!(service.runtime().asked, vec![format!("load {MODEL}")]);
}

#[test]
fn test_ensure_model_loaded_at_past_threshold_unloads_then_loads_again() {
    let mut service = TranscriptionService::new(RecordingTranscriber::new());
    ensure_model_loaded_at(&mut service, 1_000, found).unwrap();
    let now = 1_000 + KEEP_ALIVE_MS + 1;
    ensure_model_loaded_at(&mut service, now, found).expect("the model is loaded again");
    assert_eq!(
        service.runtime().asked,
        vec![
            format!("load {MODEL}"),
            "unload".to_string(),
            format!("load {MODEL}")
        ]
    );
    // the handle in use is the newly loaded one
    assert_eq!(service.runtime().handle, Some(2));
    assert!(is_model_loaded(&service));
    assert_eq!(service.last_used_at(), Some(now));
}

#[test]
fn test_ensure_model_loaded_at_past_threshold_without_file_drops_the_model() {
    let mut service = TranscriptionService::new(RecordingTranscriber::new());
    ensure_model_loaded_at(&mut service, 1_000, found).unwrap();
    let result = ensure_model_loaded_at(&mut service, 1_000 + KEEP_ALIVE_MS + 1, missing);
    match result {
        Err(CyranoError::ModelNotFound { path }) => {
            assert_eq!(path, "/models (no .bin files found)");
        }
        _ => panic!("Expected ModelNotFound error"),
    }
    assert_eq!(
        service.runtime().asked,
        vec![format!("load {MODEL}"), "unload".to_string()]
    );
    assert_eq!(service.runtime().handle, None);
    assert!(!is_model_loaded(&service));
    assert_eq!(service.last_used_at(), None);
}

#[test]
fn test_ensure_model_loaded_at_with_clock_gone_backwards_keeps_the_model() {
    let mut service = TranscriptionService::new(RecordingTranscriber::new());
    ensure_model_loaded_at(&mut service, 5_000_000, found).unwrap();
    ensure_model_loaded_at(&mut service, 1_000, found).unwrap();
    assert_eq!(service.runtime().handle, Some(1));
    assert_eq!(service.last_used_at(), Some(1_000));
}

#[test]
fn test_unload_if_idle_at() {
    let mut service = TranscriptionService::new(RecordingTranscriber::new());
    // never used
    assert!(matches!(unload_if_idle_at(&mut service, u64::MAX), Ok(false)));
    ensure_model_loaded_at(&mut service, 1_000, found).unwrap();
    // at the threshold: kept
    assert!(matches!(
        unload_if_idle_at(&mut service, 1_000 + KEEP_ALIVE_MS),
        Ok(false)
    ));
    assert!(is_model_loaded(&service));
    assert_eq!(service.last_used_at(), Some(1_000));
    // past the threshold: unloaded
    assert!(matches!(
        unload_if_idle_at(&mut service, 1_001 + KEEP_ALIVE_MS),
        Ok(true)
    ));
    assert!(!is_model_loaded(&service));
    assert_eq!(service.last_used_at(), None);
    assert_eq!(
        service.runtime().asked,
        vec![format!("load {MODEL}"), "unload".to_string()]
    );
}

#[test]
fn test_unload_if_idle_at_leaves_an_unloaded_runtime_alone() {
    let mut service = TranscriptionService::new(RecordingTranscriber::new());
    service.set_last_used(Some(0));
    assert!(matches!(
        unload_if_idle_at(&mut service, 10 * KEEP_ALIVE_MS),
        Ok(false)
    ));
    assert_eq!(service.last_used_at(), Some(0));
    assert!(service.runtime().asked.is_empty());
}

#[test]
fn test_record_use() {
    let mut service = service();
    service.set_last_used(Some(5));
    record_use(&mut service, &Ok("text".to_string()), 77);
    assert_eq!(service.last_used_at(), Some(77));
    let failed = Err(CyranoError::TranscriptionFailed {
        reason: "no".to_string(),
    });
    record_use(&mut service, &failed, 99);
    assert_eq!(service.last_used_at(), Some(77));
}
