//! Recording lifecycle.
//!
//! A recording is started, then either stopped (its samples go to the
//! recording state store for transcription) or cancelled (its samples are
//! discarded). At most one recording is active at any time.

use crate::domain::{CyranoError, ErrorView, PermissionStatus, RecordingState};
pub use crate::services::clock::get_timestamp_ms;
use crate::services::recording_state::{
    clear_audio_buffer,
    set_audio_samples,
    set_recording_state,
    RecordingStore,
    StoreView,
};
use crate::traits::audio_capture::{capture_outcome, AudioCapture};
use vstd::prelude::*;
use vstd::string::StringExecFns;

verus! {

/// Payload of the notification that a recording started.
#[derive(Debug, Clone, Copy, PartialEq, Eq, Structural)]
pub struct RecordingStartedPayload {
    /// Unix timestamp in milliseconds at which the recording started.
    pub timestamp: u64,
}

/// Payload of the notification that a recording stopped.
#[derive(Debug, Clone, Copy, PartialEq, Eq, Structural)]
pub struct RecordingStoppedPayload {
    /// Duration of the recording in milliseconds.
    pub duration_ms: u32,
    /// Number of audio samples captured.
    pub sample_count: u32,
}

/// Payload of the notification that a recording failed.
#[derive(Debug, Clone)]
pub struct RecordingFailedPayload {
    /// The error that made the recording fail.
    pub error: CyranoError,
}

/// What exists only while a recording is active.
pub struct RecordingContext {
    /// Unix timestamp in milliseconds at which the recording started.
    pub start_timestamp: u64,
    /// The error with which the capture source refused to start, if it did.
    /// Such a recording yields no samples.
    pub capture_error: Option<CyranoError>,
}

/// The recording lifecycle manager: the capture source and the slot for the
/// context of the active recording.
pub struct RecordingService<C> {
    capture: C,
    context: Option<RecordingContext>,
}

/// Reason of the error for stopping while nothing is being recorded.
pub open spec fn no_recording_reason() -> Seq<char> {
    "No recording in progress"@
}

/// Milliseconds from `start` to `now`, zero where the clock went backwards.
pub open spec fn elapsed_ms(start: u64, now: u64) -> u64 {
    if now >= start {
        (now - start) as u64
    } else {
        0
    }
}

/// The summary of a recording started at `start`, stopped at `now`, that
/// captured `samples` samples. Both numbers are cut to their low 32 bits.
pub open spec fn recording_summary(start: u64, now: u64, samples: nat) -> RecordingStoppedPayload {
    RecordingStoppedPayload {
        duration_ms: elapsed_ms(start, now) as u32,
        sample_count: samples as u32,
    }
}

/// The store after a recording that captured `samples` was stopped.
pub open spec fn stopped_store<S>(store: StoreView<S>, samples: Seq<S>) -> StoreView<S> {
    store.with_buffer(samples).with_state(RecordingState::Transcribing)
}

/// The store after a recording was cancelled.
pub open spec fn cancelled_store<S>(store: StoreView<S>) -> StoreView<S> {
    store.cleared().with_state(RecordingState::Idle)
}

/// The error with which a capture source refused to start, if it did.
pub open spec fn refusal(outcome: Result<(), CyranoError>) -> Option<CyranoError> {
    match outcome {
        Ok(_) => None,
        Err(error) => Some(error),
    }
}

/// The samples that a recording yields, given how its capture source ended:
/// those that the source handed back, none where it failed or never started.
pub open spec fn yielded_samples<S>(ended: Option<Result<Seq<S>, CyranoError>>) -> Seq<S> {
    match ended {
        Some(Ok(samples)) => samples,
        _ => Seq::empty(),
    }
}

/// How the capture source of the recording `context` is brought to an end.
/// A source that refused to start is left alone (`ended` is `None`); one
/// that started is stopped, which takes it from `before` to `after`.
pub open spec fn capture_ended<C: AudioCapture>(
    context: RecordingContext,
    before: C,
    after: C,
    ended: Option<Result<Seq<C::Sample>, CyranoError>>,
) -> bool {
    if context.capture_error is Some {
        ended is None && after == before
    } else {
        ended matches Some(outcome) && before.stops(&after, outcome)
    }
}

/// What `start_recording` does when the clock reads `now`, from the
/// manager `before` and the store `store` to the manager `after` and the
/// store `store_after`.
pub open spec fn recording_started<C: AudioCapture>(
    before: RecordingService<C>,
    store: StoreView<C::Sample>,
    permission: PermissionStatus,
    now: u64,
    after: RecordingService<C>,
    store_after: StoreView<C::Sample>,
    started: Result<Option<RecordingStartedPayload>, CyranoError>,
) -> bool {
    if permission == PermissionStatus::Denied {
        &&& started matches Err(error)
        &&& error@ == ErrorView::MicAccessDenied
        &&& after == before
        &&& store_after == store
    } else if before.context() is Some {
        &&& started == Ok::<Option<RecordingStartedPayload>, CyranoError>(None)
        &&& after == before
        &&& store_after == store
    } else {
        exists|outcome: Result<(), CyranoError>|
            {
                &&& #[trigger] before.capture().starts(&after.capture(), outcome)
                &&& started == Ok::<Option<RecordingStartedPayload>, CyranoError>(
                    Some(RecordingStartedPayload { timestamp: now }),
                )
                &&& after.context() == Some(
                    RecordingContext { start_timestamp: now, capture_error: refusal(outcome) },
                )
                &&& store_after == store.with_state(RecordingState::Recording)
            }
    }
}

/// What `stop_recording` does, from the manager `before` and the store
/// `store` to the manager `after` and the store `store_after`.
pub open spec fn recording_stopped<C: AudioCapture>(
    before: RecordingService<C>,
    store: StoreView<C::Sample>,
    after: RecordingService<C>,
    store_after: StoreView<C::Sample>,
    stopped: Result<RecordingStoppedPayload, CyranoError>,
) -> bool {
    &&& after.context() is None
    &&& match before.context() {
        None => {
            &&& stopped matches Err(error)
            &&& error@ == (ErrorView::RecordingFailed { reason: no_recording_reason() })
            &&& after.capture() == before.capture()
            &&& store_after == store
        },
        Some(context) => exists|how: Option<Result<Seq<C::Sample>, CyranoError>>, now: u64|
            {
                &&& #[trigger] capture_ended(context, before.capture(), after.capture(), how)
                &&& store_after == stopped_store(store, yielded_samples(how))
                &&& stopped == Ok::<RecordingStoppedPayload, CyranoError>(
                    #[trigger] recording_summary(
                        context.start_timestamp,
                        now,
                        yielded_samples(how).len(),
                    ),
                )
            },
    }
}

/// What `cancel_recording` does, from the manager `before` and the store
/// `store` to the manager `after` and the store `store_after`.
pub open spec fn recording_cancelled<C: AudioCapture>(
    before: RecordingService<C>,
    store: StoreView<C::Sample>,
    after: RecordingService<C>,
    store_after: StoreView<C::Sample>,
    discarded: usize,
) -> bool {
    &&& after.context() is None
    &&& match before.context() {
        None => {
            &&& discarded == 0
            &&& after.capture() == before.capture()
            &&& store_after == store
        },
        Some(context) => exists|how: Option<Result<Seq<C::Sample>, CyranoError>>|
            {
                &&& #[trigger] capture_ended(context, before.capture(), after.capture(), how)
                &&& discarded == yielded_samples(how).len()
                &&& store_after == cancelled_store(store)
            },
    }
}

impl<C> RecordingService<C> {
    /// The capture source.
    pub closed spec fn capture(&self) -> C {
        self.capture
    }

    /// The context of the active recording, if one is active.
    pub closed spec fn context(&self) -> Option<RecordingContext> {
        self.context
    }

    /// A manager at rest around the given capture source.
    pub fn new(capture: C) -> (service: Self)
        ensures
            service.capture() == capture,
            service.context() is None,
    {
        RecordingService { capture, context: None }
    }

    /// Whether a recording is active.
    pub fn is_recording(&self) -> (active: bool)
        ensures
            active == self.context() is Some,
    {
        self.context.is_some()
    }

    /// When the active recording started, if one is active.
    pub fn started_at(&self) -> (timestamp: Option<u64>)
        ensures
            timestamp == match self.context() {
                Some(context) => Some(context.start_timestamp),
                None => None,
            },
    {
        match &self.context {
            Some(context) => Some(context.start_timestamp),
            None => None,
        }
    }

    /// Read access to the capture source.
    pub fn capture_source(&self) -> (capture: &C)
        ensures
            *capture == self.capture(),
    {
        &self.capture
    }

    /// Write access to the capture source.
    pub fn capture_source_mut(&mut self) -> (capture: &mut C)
        ensures
            *capture == old(self).capture(),
            final(self).capture() == *final(capture),
            final(self).context() == old(self).context(),
    {
        &mut self.capture
    }

    /// Takes the context out of its slot and brings the capture source to an
    /// end. Returns the start timestamp and the samples that the recording
    /// yields; a failing source yields none.
    fn end_capture(&mut self) -> (ended: Option<(u64, Vec<C::Sample>)>) where C: AudioCapture
        ensures
            final(self).context() is None,
            match old(self).context() {
                None => ended is None && final(self).capture() == old(self).capture(),
                Some(context) => exists|how: Option<Result<Seq<C::Sample>, CyranoError>>|
                    {
                        &&& #[trigger] capture_ended(
                            context,
                            old(self).capture(),
                            final(self).capture(),
                            how,
                        )
                        &&& ended matches Some((start, samples))
                        &&& start == context.start_timestamp
                        &&& samples@ == yielded_samples(how)
                    },
            },
    {
        match self.context.take() {
            None => None,
            Some(context) => {
                let start = context.start_timestamp;
                if context.capture_error.is_some() {
                    assert(capture_ended::<C>(
                        context,
                        old(self).capture(),
                        self.capture(),
                        None,
                    ));
                    Some((start, Vec::new()))
                } else {
                    let outcome = self.capture.stop_capture();
                    assert(capture_ended(
                        context,
                        old(self).capture(),
                        self.capture(),
                        Some(capture_outcome(outcome)),
                    ));
                    match outcome {
                        Ok(samples) => Some((start, samples)),
                        Err(_) => Some((start, Vec::new())),
                    }
                }
            },
        }
    }
}

/// Moves the samples of a stopped recording into the store, moves the
/// workflow to `Transcribing` and summarises the recording.
pub fn finish_recording<S>(
    store: &mut RecordingStore<S>,
    start_timestamp: u64,
    samples: Vec<S>,
    now: u64,
) -> (payload: RecordingStoppedPayload)
    ensures
        final(store)@ == stopped_store(old(store)@, samples@),
        payload == recording_summary(start_timestamp, now, samples@.len()),
{
    let duration: u64 = now.saturating_sub(start_timestamp);
    let count: usize = samples.len();
    store.store_samples(samples);
    set_recording_state(store, RecordingState::Transcribing);
    RecordingStoppedPayload {
        duration_ms: #[verifier::truncate]
        (duration as u32),
        sample_count: #[verifier::truncate]
        (count as u32),
    }
}

/// Store a copy of audio samples in the buffer for transcription.
pub fn store_audio_samples<S: Copy>(store: &mut RecordingStore<S>, samples: &[S]) -> (done: Result<
    (),
    CyranoError,
>)
    ensures
        done is Ok,
        final(store)@ == old(store)@.with_buffer(samples@),
{
    match set_audio_samples(store, samples) {
        Ok(_) => Ok(()),
        Err(reason) => Err(CyranoError::RecordingFailed { reason }),
    }
}

/// Start recording audio from the microphone when the clock reads `now`.
///
/// Fails with `MicAccessDenied` where `permission` is `Denied`. Where a
/// recording is already active, succeeds without doing anything and returns
/// no payload. Otherwise starts the capture source, installs the context of
/// the new recording, started at `now`, moves the workflow to `Recording`
/// and returns the payload of the notification to send, which carries
/// `now`. A source that refuses to start does not fail the call: the
/// recording then yields no samples.
pub fn start_recording_at<C: AudioCapture>(
    recorder: &mut RecordingService<C>,
    store: &mut RecordingStore<C::Sample>,
    permission: PermissionStatus,
    now: u64,
) -> (started: Result<Option<RecordingStartedPayload>, CyranoError>)
    ensures
        recording_started(
            *old(recorder),
            old(store)@,
            permission,
            now,
            *final(recorder),
            final(store)@,
            started,
        ),
{
    if permission == PermissionStatus::Denied {
        return Err(CyranoError::MicAccessDenied);
    }
    if recorder.context.is_some() {
        return Ok(None);
    }
    let outcome = recorder.capture.start_capture();
    let capture_error = match outcome {
        Ok(_) => None,
        Err(error) => Some(error),
    };
    recorder.context = Some(RecordingContext { start_timestamp: now, capture_error });
    set_recording_state(store, RecordingState::Recording);
    assert(old(recorder).capture().starts(&recorder.capture(), outcome));
    Ok(Some(RecordingStartedPayload { timestamp: now }))
}

/// Start recording audio from the microphone: reads the system clock and
/// does what `start_recording_at` does at its reading.
pub fn start_recording<C: AudioCapture>(
    recorder: &mut RecordingService<C>,
    store: &mut RecordingStore<C::Sample>,
    permission: PermissionStatus,
) -> (started: Result<Option<RecordingStartedPayload>, CyranoError>)
    ensures
        exists|now: u64| #[trigger]
            recording_started(
                *old(recorder),
                old(store)@,
                permission,
                now,
                *final(recorder),
                final(store)@,
                started,
            ),
{
    let now = get_timestamp_ms();
    let started = start_recording_at(recorder, store, permission, now);
    assert(recording_started(
        *old(recorder),
        old(store)@,
        permission,
        now,
        *recorder,
        store@,
        started,
    ));
    started
}

/// Stop recording and hand the captured samples to the store.
///
/// Fails with `RecordingFailed` where no recording is active. Otherwise
/// removes the context, stops the capture source, moves its samples into the
/// store (none where the source failed), moves the workflow to
/// `Transcribing` and returns the summary of the recording.
pub fn stop_recording<C: AudioCapture>(
    recorder: &mut RecordingService<C>,
    store: &mut RecordingStore<C::Sample>,
) -> (stopped: Result<RecordingStoppedPayload, CyranoError>)
    ensures
        recording_stopped(*old(recorder), old(store)@, *final(recorder), final(store)@, stopped),
{
    match recorder.end_capture() {
        None => Err(
            CyranoError::RecordingFailed { reason: String::from_str("No recording in progress") },
        ),
        Some((start_timestamp, samples)) => {
            let now = get_timestamp_ms();
            let payload = finish_recording(store, start_timestamp, samples, now);
            Ok(payload)
        },
    }
}

/// Cancel the current recording, discarding all captured audio.
///
/// Returns 0 and changes nothing where no recording is active. Otherwise
/// removes the context, stops the capture source, discards its samples,
/// empties the store's buffer, moves the workflow to `Idle` and returns the
/// number of samples discarded.
pub fn cancel_recording<C: AudioCapture>(
    recorder: &mut RecordingService<C>,
    store: &mut RecordingStore<C::Sample>,
) -> (discarded: usize)
    ensures
        recording_cancelled(
            *old(recorder),
            old(store)@,
            *final(recorder),
            final(store)@,
            discarded,
        ),
{
    match recorder.end_capture() {
        None => 0,
        Some((_, samples)) => {
            let discarded = samples.len();
            set_recording_state(store, RecordingState::Idle);
            let _ = clear_audio_buffer(store);
            discarded
        },
    }
}

/// Starting twice in a row, with no stop or cancel in between, leaves the
/// one recording that the first call started: the second call succeeds and
/// changes nothing.
pub proof fn lemma_second_start_changes_nothing<C: AudioCapture>(
    before: RecordingService<C>,
    store: StoreView<C::Sample>,
    permission: PermissionStatus,
    now: u64,
    recording: RecordingService<C>,
    store_recording: StoreView<C::Sample>,
    first: Result<Option<RecordingStartedPayload>, CyranoError>,
    permission_again: PermissionStatus,
    later: u64,
    after: RecordingService<C>,
    store_after: StoreView<C::Sample>,
    second: Result<Option<RecordingStartedPayload>, CyranoError>,
)
    requires
        recording_started(before, store, permission, now, recording, store_recording, first),
        first is Ok,
        permission_again != PermissionStatus::Denied,
        recording_started(
            recording,
            store_recording,
            permission_again,
            later,
            after,
            store_after,
            second,
        ),
    ensures
        recording.context() is Some,
        second == Ok::<Option<RecordingStartedPayload>, CyranoError>(None),
        after == recording,
        store_after == store_recording,
{
}

/// With no recording active, stopping fails with `RecordingFailed` and
/// cancelling returns 0; neither changes the capture source or the store.
pub proof fn lemma_nothing_to_stop_or_cancel<C: AudioCapture>(
    before: RecordingService<C>,
    store: StoreView<C::Sample>,
    after: RecordingService<C>,
    store_after: StoreView<C::Sample>,
    stopped: Result<RecordingStoppedPayload, CyranoError>,
    discarded: usize,
)
    requires
        before.context() is None,
    ensures
        recording_stopped(before, store, after, store_after, stopped) ==> {
            &&& stopped matches Err(error)
            &&& error@ is RecordingFailed
            &&& store_after == store
        },
        recording_cancelled(before, store, after, store_after, discarded) ==> {
            &&& discarded == 0
            &&& store_after == store
        },
{
}

/// After a recording was stopped, the store holds as many samples as the
/// summary counts (as long as the count fits its 32 bits); taking the buffer
/// yields those samples once, and nothing the second time.
pub proof fn lemma_stopped_samples_are_taken_once<C: AudioCapture>(
    before: RecordingService<C>,
    store: StoreView<C::Sample>,
    after: RecordingService<C>,
    store_after: StoreView<C::Sample>,
    summary: RecordingStoppedPayload,
)
    requires
        recording_stopped(
            before,
            store,
            after,
            store_after,
            Ok::<RecordingStoppedPayload, CyranoError>(summary),
        ),
        store_after.buffer.len() <= u32::MAX,
    ensures
        summary.sample_count == store_after.buffer.len(),
        store_after.taken().0 == store_after.buffer,
        store_after.taken().1.taken().0 == Seq::<C::Sample>::empty(),
{
}

} // verus!
