//! Transcription lifecycle.
//!
//! The model is loaded lazily, kept while it is in use, and unloaded once it
//! has been idle for longer than [`KEEP_ALIVE_MS`]. A cancellation flag gates
//! each transcription before the model is invoked.

use crate::domain::{CyranoError, ErrorView};
pub use crate::services::model_files::{get_model_path, get_models_directory};
use crate::services::clock::get_timestamp_ms;
use crate::traits::transcriber::Transcriber;
use vstd::prelude::*;
use vstd::string::StringExecFns;

verus! {

/// How long the model stays loaded after its last use: 30 minutes, in
/// milliseconds.
pub const KEEP_ALIVE_MS: u64 = 1_800_000;

/// Reason of the error for a transcription that was cancelled.
pub open spec fn cancelled_reason() -> Seq<char> {
    "Transcription cancelled by user"@
}

/// Reason of the error for a transcription attempted without a model.
pub open spec fn model_not_loaded_reason() -> Seq<char> {
    "Model not loaded - call ensure_model_loaded first"@
}

/// Whether a model last used at `last_used` has been idle for longer than
/// the keep-alive threshold when the clock reads `now`.
pub open spec fn idle_at(last_used: Option<u64>, now: u64) -> bool {
    last_used matches Some(used) && now - used > KEEP_ALIVE_MS
}

/// The cancellation flag: set by a cancellation request, cleared when a new
/// recording starts or when a transcription attempt consumes it.
pub struct CancellationFlag {
    requested: bool,
}

impl CancellationFlag {
    /// Whether a cancellation has been requested and not yet consumed.
    pub closed spec fn is_set(&self) -> bool {
        self.requested
    }

    /// A clear flag.
    pub fn new() -> (flag: Self)
        ensures
            !flag.is_set(),
    {
        CancellationFlag { requested: false }
    }

    /// Moves a pending request into a flag of its own and leaves this one
    /// clear, so that the request can be consumed without holding on to the
    /// shared flag.
    pub fn take_request(&mut self) -> (taken: Self)
        ensures
            taken.is_set() == old(self).is_set(),
            !final(self).is_set(),
    {
        let taken = CancellationFlag { requested: self.requested };
        self.requested = false;
        taken
    }
}

/// The model runtime together with the time of its last use.
pub struct TranscriptionService<T> {
    adapter: T,
    last_used: Option<u64>,
}

impl<T> TranscriptionService<T> {
    /// The model runtime.
    pub closed spec fn adapter(&self) -> T {
        self.adapter
    }

    /// Unix timestamp in milliseconds of the last use of the model; absent
    /// when the model was never used or has been unloaded.
    pub closed spec fn last_used(&self) -> Option<u64> {
        self.last_used
    }

    /// A service around the given runtime that has not been used yet.
    pub fn new(adapter: T) -> (service: Self)
        ensures
            service.adapter() == adapter,
            service.last_used() is None,
    {
        TranscriptionService { adapter, last_used: None }
    }

    /// Read access to the model runtime.
    pub fn runtime(&self) -> (adapter: &T)
        ensures
            *adapter == self.adapter(),
    {
        &self.adapter
    }

    /// Write access to the model runtime.
    pub fn runtime_mut(&mut self) -> (adapter: &mut T)
        ensures
            *adapter == old(self).adapter(),
            final(self).adapter() == *final(adapter),
            final(self).last_used() == old(self).last_used(),
    {
        &mut self.adapter
    }

    /// The time of the last use of the model.
    pub fn last_used_at(&self) -> (last_used: Option<u64>)
        ensures
            last_used == self.last_used(),
    {
        self.last_used
    }

    /// Records that the model was last used at `last_used`.
    pub fn set_last_used(&mut self, last_used: Option<u64>)
        ensures
            final(self).adapter() == old(self).adapter(),
            final(self).last_used() == last_used,
    {
        self.last_used = last_used;
    }
}

/// Whether a model last used at `last_used` has been idle for longer than
/// the keep-alive threshold when the clock reads `now`.
pub fn is_idle(last_used: Option<u64>, now: u64) -> (idle: bool)
    ensures
        idle == idle_at(last_used, now),
{
    match last_used {
        Some(used) => now.saturating_sub(used) > KEEP_ALIVE_MS,
        None => false,
    }
}

/// What `ensure_model_loaded` does once the idle test is behind it, from a
/// runtime in state `adapter` last used at `last_used`, when the clock reads
/// `stamp`: a model that the runtime reports as loaded is kept and marked as
/// used at `stamp`; otherwise the model file is located and loaded.
pub open spec fn model_made_ready<T: Transcriber, L: FnOnce() -> Result<String, CyranoError>>(
    adapter: T,
    last_used: Option<u64>,
    locate: L,
    stamp: u64,
    after: T,
    used_after: Option<u64>,
    ready: Result<(), CyranoError>,
) -> bool {
    exists|loaded: bool| #[trigger]
        adapter.reports_loaded(loaded) && if loaded {
            &&& ready is Ok
            &&& after == adapter
            &&& used_after == Some(stamp)
        } else {
            model_fetched(adapter, last_used, locate, stamp, after, used_after, ready)
        }
}

/// What `ensure_model_loaded` does where no model is loaded: `locate` is
/// asked for the model file, whose error is passed on; the file is loaded,
/// and on success the model is marked as used at `stamp`.
pub open spec fn model_fetched<T: Transcriber, L: FnOnce() -> Result<String, CyranoError>>(
    adapter: T,
    last_used: Option<u64>,
    locate: L,
    stamp: u64,
    after: T,
    used_after: Option<u64>,
    ready: Result<(), CyranoError>,
) -> bool {
    exists|located: Result<String, CyranoError>| #[trigger]
        call_ensures(locate, (), located) && match located {
            Err(error) => {
                &&& ready == Err::<(), CyranoError>(error)
                &&& after == adapter
                &&& used_after == last_used
            },
            Ok(path) => exists|outcome: Result<(), CyranoError>| #[trigger]
                adapter.loads(path@, &after, outcome) && match outcome {
                    Err(error) => {
                        &&& ready == Err::<(), CyranoError>(error)
                        &&& used_after == last_used
                    },
                    Ok(_) => {
                        &&& ready is Ok
                        &&& used_after == Some(stamp)
                    },
                },
        }
}

/// What `ensure_model_loaded` does when the clock reads `now`: a model that
/// has been idle for too long is unloaded first, and the time of its last
/// use forgotten; a failing unload ends the call. Then the model is made
/// ready and marked as used at `now`.
pub open spec fn model_ensured<T: Transcriber, L: FnOnce() -> Result<String, CyranoError>>(
    adapter: T,
    last_used: Option<u64>,
    now: u64,
    locate: L,
    after: T,
    used_after: Option<u64>,
    ready: Result<(), CyranoError>,
) -> bool {
    if idle_at(last_used, now) {
        exists|evicted: T, unloaded: Result<(), CyranoError>| #[trigger]
            adapter.unloads(&evicted, unloaded) && match unloaded {
                Err(error) => {
                    &&& ready == Err::<(), CyranoError>(error)
                    &&& after == evicted
                    &&& used_after == last_used
                },
                Ok(_) => model_made_ready(evicted, None, locate, now, after, used_after, ready),
            }
    } else {
        model_made_ready(adapter, last_used, locate, now, after, used_after, ready)
    }
}

/// Marks a loaded model as used at `stamp`; otherwise asks `locate` for the
/// model file and loads it.
fn make_model_ready<T: Transcriber, L: FnOnce() -> Result<String, CyranoError>>(
    service: &mut TranscriptionService<T>,
    stamp: u64,
    locate: L,
) -> (ready: Result<(), CyranoError>)
    requires
        call_requires(locate, ()),
    ensures
        model_made_ready(
            old(service).adapter(),
            old(service).last_used(),
            locate,
            stamp,
            final(service).adapter(),
            final(service).last_used(),
            ready,
        ),
{
    let loaded = service.adapter.is_loaded();
    if loaded {
        service.last_used = Some(stamp);
        assert(old(service).adapter().reports_loaded(loaded));
        return Ok(());
    }
    let located = locate();
    let path = match located {
        Err(error) => {
            assert(model_fetched(
                old(service).adapter(),
                old(service).last_used(),
                locate,
                stamp,
                service.adapter(),
                service.last_used(),
                Err(error),
            ));
            assert(old(service).adapter().reports_loaded(loaded));
            return Err(error);
        },
        Ok(path) => path,
    };
    let outcome = service.adapter.load_model(path.as_str());
    let ready = match outcome {
        Err(error) => Err(error),
        Ok(_) => {
            service.last_used = Some(stamp);
            Ok(())
        },
    };
    assert(old(service).adapter().loads(path@, &service.adapter(), outcome));
    assert(model_fetched(
        old(service).adapter(),
        old(service).last_used(),
        locate,
        stamp,
        service.adapter(),
        service.last_used(),
        ready,
    ));
    assert(old(service).adapter().reports_loaded(loaded));
    ready
}

/// Ensure the model is loaded when the clock reads `now`, loading it lazily
/// if needed.
///
/// A model last used more than the keep-alive threshold before `now` is
/// unloaded first; the error of a failing unload is passed on. A loaded
/// model is marked as used at `now`. Otherwise `locate` is asked for the
/// model file, whose error is passed on, and the file is loaded; on success
/// the model is marked as used at `now`.
pub fn ensure_model_loaded_at<T: Transcriber, L: FnOnce() -> Result<String, CyranoError>>(
    service: &mut TranscriptionService<T>,
    now: u64,
    locate: L,
) -> (ready: Result<(), CyranoError>)
    requires
        call_requires(locate, ()),
    ensures
        model_ensured(
            old(service).adapter(),
            old(service).last_used(),
            now,
            locate,
            final(service).adapter(),
            final(service).last_used(),
            ready,
        ),
{
    if is_idle(service.last_used, now) {
        let unloaded = service.adapter.unload();
        if let Err(error) = unloaded {
            return Err(error);
        }
        service.last_used = None;
        let ghost evicted = service.adapter;
        let ready = make_model_ready(service, now, locate);
        assert(old(service).adapter().unloads(&evicted, unloaded));
        ready
    } else {
        make_model_ready(service, now, locate)
    }
}

/// Ensure the model is loaded, loading it lazily if needed: reads the
/// system clock and does what `ensure_model_loaded_at` does at its reading.
pub fn ensure_model_loaded<T: Transcriber, L: FnOnce() -> Result<String, CyranoError>>(
    service: &mut TranscriptionService<T>,
    locate: L,
) -> (ready: Result<(), CyranoError>)
    requires
        call_requires(locate, ()),
    ensures
        exists|now: u64| #[trigger]
            model_ensured(
                old(service).adapter(),
                old(service).last_used(),
                now,
                locate,
                final(service).adapter(),
                final(service).last_used(),
                ready,
            ),
{
    let now = get_timestamp_ms();
    let ready = ensure_model_loaded_at(service, now, locate);
    assert(model_ensured(
        old(service).adapter(),
        old(service).last_used(),
        now,
        locate,
        service.adapter(),
        service.last_used(),
        ready,
    ));
    ready
}

/// Check if the model is currently loaded: the answer of the runtime.
pub fn is_model_loaded<T: Transcriber>(service: &TranscriptionService<T>) -> (loaded: bool)
    ensures
        service.adapter().reports_loaded(loaded),
{
    service.adapter.is_loaded()
}

/// Manually unload the model to free memory.
///
/// The runtime's answer is passed on. After a successful unload the time of
/// the last use is forgotten.
pub fn unload_model<T: Transcriber>(service: &mut TranscriptionService<T>) -> (unloaded: Result<
    (),
    CyranoError,
>)
    ensures
        old(service).adapter().unloads(&final(service).adapter(), unloaded),
        unloaded is Ok ==> final(service).last_used() is None,
        unloaded is Err ==> final(service).last_used() == old(service).last_used(),
{
    let unloaded = service.adapter.unload();
    if unloaded.is_ok() {
        service.last_used = None;
    }
    unloaded
}

/// What `check_and_unload_if_idle` does when the clock reads `now`: a model
/// that has been idle for too long, and that the runtime reports as loaded,
/// is unloaded; anything else is left as it is.
pub open spec fn idle_model_evicted<T: Transcriber>(
    adapter: T,
    last_used: Option<u64>,
    now: u64,
    after: T,
    used_after: Option<u64>,
    evicted: Result<bool, CyranoError>,
) -> bool {
    if idle_at(last_used, now) {
        exists|loaded: bool| #[trigger]
            adapter.reports_loaded(loaded) && if loaded {
                exists|unloaded: Result<(), CyranoError>| #[trigger]
                    adapter.unloads(&after, unloaded) && match unloaded {
                        Err(error) => {
                            &&& evicted == Err::<bool, CyranoError>(error)
                            &&& used_after == last_used
                        },
                        Ok(_) => {
                            &&& evicted == Ok::<bool, CyranoError>(true)
                            &&& used_after is None
                        },
                    }
            } else {
                &&& evicted == Ok::<bool, CyranoError>(false)
                &&& after == adapter
                &&& used_after == last_used
            }
    } else {
        &&& evicted == Ok::<bool, CyranoError>(false)
        &&& after == adapter
        &&& used_after == last_used
    }
}

/// Unload the model if, when the clock reads `now`, it has been idle for
/// longer than the keep-alive threshold and the runtime reports it as
/// loaded. Returns whether the model was unloaded; the error of a failing
/// unload is passed on.
pub fn unload_if_idle_at<T: Transcriber>(service: &mut TranscriptionService<T>, now: u64) -> (evicted:
    Result<bool, CyranoError>)
    ensures
        idle_model_evicted(
            old(service).adapter(),
            old(service).last_used(),
            now,
            final(service).adapter(),
            final(service).last_used(),
            evicted,
        ),
{
    if is_idle(service.last_used, now) {
        let loaded = service.adapter.is_loaded();
        if loaded {
            let unloaded = service.adapter.unload();
            assert(old(service).adapter().unloads(&service.adapter(), unloaded));
            let evicted = match unloaded {
                Err(error) => Err(error),
                Ok(_) => {
                    service.last_used = None;
                    Ok(true)
                },
            };
            assert(old(service).adapter().reports_loaded(loaded));
            evicted
        } else {
            assert(old(service).adapter().reports_loaded(loaded));
            Ok(false)
        }
    } else {
        Ok(false)
    }
}

/// Check if the model has been idle for too long and unload it if so:
/// reads the system clock and does what `unload_if_idle_at` does at its
/// reading. Returns whether the model was unloaded.
pub fn check_and_unload_if_idle<T: Transcriber>(service: &mut TranscriptionService<T>) -> (evicted:
    Result<bool, CyranoError>)
    ensures
        exists|now: u64| #[trigger]
            idle_model_evicted(
                old(service).adapter(),
                old(service).last_used(),
                now,
                final(service).adapter(),
                final(service).last_used(),
                evicted,
            ),
{
    let now = get_timestamp_ms();
    let evicted = unload_if_idle_at(service, now);
    assert(idle_model_evicted(
        old(service).adapter(),
        old(service).last_used(),
        now,
        service.adapter(),
        service.last_used(),
        evicted,
    ));
    evicted
}

/// Request cancellation of the next transcription.
///
/// The flag is looked at once, before the model is invoked: a transcription
/// whose model call is already running completes.
pub fn request_cancellation(flag: &mut CancellationFlag)
    ensures
        final(flag).is_set(),
{
    flag.requested = true;
}

/// Clear the cancellation flag.
pub fn clear_cancellation(flag: &mut CancellationFlag)
    ensures
        !final(flag).is_set(),
{
    flag.requested = false;
}

/// Check if transcription has been cancelled.
pub fn is_cancelled(flag: &CancellationFlag) -> (cancelled: bool)
    ensures
        cancelled == flag.is_set(),
{
    flag.requested
}

/// What a transcription attempt comes to before the model is invoked.
#[derive(Debug, Clone, Copy, PartialEq, Eq, Structural)]
pub enum TranscriptionGate {
    /// A cancellation was requested: the attempt fails and consumes the
    /// request.
    Cancelled,
    /// No model is loaded: the attempt fails.
    ModelMissing,
    /// There is nothing to transcribe: the attempt succeeds with empty text.
    Empty,
    /// The model is invoked.
    Run,
}

/// What a transcription attempt comes to: cancellation is looked at first,
/// then the model, then the length of the input.
pub open spec fn transcription_gate(cancelled: bool, loaded: bool, samples: nat) -> TranscriptionGate {
    if cancelled {
        TranscriptionGate::Cancelled
    } else if !loaded {
        TranscriptionGate::ModelMissing
    } else if samples == 0 {
        TranscriptionGate::Empty
    } else {
        TranscriptionGate::Run
    }
}

/// The time of last use after the model answered `transcribed` when the
/// clock read `now`: `now` where the model succeeded, else what it was.
pub open spec fn use_recorded(
    last_used: Option<u64>,
    transcribed: Result<String, CyranoError>,
    now: u64,
) -> Option<u64> {
    if transcribed is Ok {
        Some(now)
    } else {
        last_used
    }
}

/// What `transcribe` returns, and which time of last use it leaves, once the
/// attempt has come to `gate`. Where the model is invoked, the clock is read
/// when it has answered.
pub open spec fn transcription_gated<T: Transcriber>(
    gate: TranscriptionGate,
    adapter: T,
    last_used: Option<u64>,
    samples: Seq<T::Sample>,
    used_after: Option<u64>,
    transcribed: Result<String, CyranoError>,
) -> bool {
    match gate {
        TranscriptionGate::Cancelled => {
            &&& transcribed matches Err(error)
            &&& error@ == (ErrorView::TranscriptionFailed { reason: cancelled_reason() })
            &&& used_after == last_used
        },
        TranscriptionGate::ModelMissing => {
            &&& transcribed matches Err(error)
            &&& error@ == (ErrorView::TranscriptionFailed { reason: model_not_loaded_reason() })
            &&& used_after == last_used
        },
        TranscriptionGate::Empty => {
            &&& transcribed matches Ok(text)
            &&& text@ == Seq::<char>::empty()
            &&& used_after == last_used
        },
        TranscriptionGate::Run => {
            &&& adapter.transcribes(samples, transcribed)
            &&& exists|now: u64| used_after == #[trigger] use_recorded(last_used, transcribed, now)
        },
    }
}

/// Records the use of the model that answered `transcribed` when the clock
/// read `now`: a success marks the model as used at `now`, a failure leaves
/// the time of last use as it was.
pub fn record_use<T>(
    service: &mut TranscriptionService<T>,
    transcribed: &Result<String, CyranoError>,
    now: u64,
)
    ensures
        final(service).adapter() == old(service).adapter(),
        final(service).last_used() == use_recorded(old(service).last_used(), *transcribed, now),
{
    if transcribed.is_ok() {
        service.last_used = Some(now);
    }
}

/// What `transcribe` does with the runtime `adapter` last used at
/// `last_used`, the cancellation flag being `cancelled`: which time of last
/// use and which flag it leaves, and what it returns. The runtime is asked
/// whether a model is loaded only where no cancellation was requested.
pub open spec fn transcription_attempted<T: Transcriber>(
    adapter: T,
    last_used: Option<u64>,
    cancelled: bool,
    samples: Seq<T::Sample>,
    used_after: Option<u64>,
    cancelled_after: bool,
    transcribed: Result<String, CyranoError>,
) -> bool {
    &&& !cancelled_after
    &&& if cancelled {
        transcription_gated(
            TranscriptionGate::Cancelled,
            adapter,
            last_used,
            samples,
            used_after,
            transcribed,
        )
    } else {
        exists|loaded: bool| #[trigger]
            adapter.reports_loaded(loaded) && transcription_gated(
                transcription_gate(false, loaded, samples.len()),
                adapter,
                last_used,
                samples,
                used_after,
                transcribed,
            )
    }
}

/// Transcribe audio samples to text.
///
/// Fails as cancelled, and clears the flag, where a cancellation was
/// requested. Fails where no model is loaded. Returns empty text for empty
/// input without invoking the model. Otherwise invokes the model on all the
/// samples, passes its answer on, and marks the model as used if it
/// succeeded.
pub fn transcribe<T: Transcriber>(
    service: &mut TranscriptionService<T>,
    flag: &mut CancellationFlag,
    samples: &[T::Sample],
) -> (transcribed: Result<String, CyranoError>)
    ensures
        final(service).adapter() == old(service).adapter(),
        transcription_attempted(
            old(service).adapter(),
            old(service).last_used(),
            old(flag).is_set(),
            samples@,
            final(service).last_used(),
            final(flag).is_set(),
            transcribed,
        ),
{
    if is_cancelled(flag) {
        clear_cancellation(flag);
        return Err(
            CyranoError::TranscriptionFailed {
                reason: String::from_str("Transcription cancelled by user"),
            },
        );
    }
    let loaded = service.adapter.is_loaded();
    let transcribed = if !loaded {
        Err(
            CyranoError::TranscriptionFailed {
                reason: String::from_str("Model not loaded - call ensure_model_loaded first"),
            },
        )
    } else if samples.len() == 0 {
        Ok(String::new())
    } else {
        let transcribed = service.adapter.transcribe(samples);
        let now = get_timestamp_ms();
        record_use(service, &transcribed, now);
        assert(service.last_used() == use_recorded(old(service).last_used(), transcribed, now));
        transcribed
    };
    assert(old(service).adapter().reports_loaded(loaded));
    transcribed
}

/// Whether a model is loaded and, if so, where its file is.
#[derive(Debug, Clone)]
pub struct ModelStatus {
    pub loaded: bool,
    pub path: Option<String>,
}

/// Get the current model status. The model file is looked up only where a
/// model is loaded; a failing lookup leaves the path out.
pub fn get_model_status<T: Transcriber, L: FnOnce() -> Result<String, CyranoError>>(
    service: &TranscriptionService<T>,
    locate: L,
) -> (status: ModelStatus)
    requires
        call_requires(locate, ()),
    ensures
        service.adapter().reports_loaded(status.loaded),
        !status.loaded ==> status.path is None,
        status.loaded ==> exists|located: Result<String, CyranoError>| #[trigger]
            call_ensures(locate, (), located) && status.path == match located {
                Ok(path) => Some(path),
                Err(_) => None,
            },
{
    let loaded = is_model_loaded(service);
    let path = if loaded {
        match locate() {
            Ok(path) => Some(path),
            Err(_) => None,
        }
    } else {
        None
    };
    ModelStatus { loaded, path }
}

/// Whether the runtime in state `adapter` can only report that a model is
/// loaded.
pub open spec fn surely_loaded<T: Transcriber>(adapter: T) -> bool {
    forall|loaded: bool| #[trigger] adapter.reports_loaded(loaded) ==> loaded
}

/// Whether unloading the runtime in state `adapter`, where it succeeds,
/// leaves a runtime that can only report that no model is loaded.
pub open spec fn unload_empties<T: Transcriber>(adapter: T) -> bool {
    forall|evicted: T, unloaded: Result<(), CyranoError>, loaded: bool|
        #[trigger] adapter.unloads(&evicted, unloaded) && unloaded is Ok
            && #[trigger] evicted.reports_loaded(loaded) ==> !loaded
}

/// With the cancellation flag clear and a model loaded, transcribing no
/// samples yields empty text and leaves the time of last use alone.
pub proof fn lemma_empty_input_yields_empty_text<T: Transcriber>(
    adapter: T,
    last_used: Option<u64>,
    used_after: Option<u64>,
    cancelled_after: bool,
    transcribed: Result<String, CyranoError>,
)
    requires
        surely_loaded(adapter),
        transcription_attempted(
            adapter,
            last_used,
            false,
            Seq::<T::Sample>::empty(),
            used_after,
            cancelled_after,
            transcribed,
        ),
    ensures
        transcribed matches Ok(text) && text@ == Seq::<char>::empty(),
        used_after == last_used,
{
}

/// A transcription attempted while the cancellation flag is set fails as
/// cancelled, whatever the samples and whether or not a model is loaded,
/// and clears the flag: the attempt that follows is not cancelled by it.
pub proof fn lemma_cancellation_stops_one_attempt<T: Transcriber>(
    adapter: T,
    last_used: Option<u64>,
    samples: Seq<T::Sample>,
    used_after: Option<u64>,
    cancelled_after: bool,
    transcribed: Result<String, CyranoError>,
    loaded_next: bool,
    samples_next: Seq<T::Sample>,
)
    requires
        transcription_attempted(
            adapter,
            last_used,
            true,
            samples,
            used_after,
            cancelled_after,
            transcribed,
        ),
    ensures
        transcribed matches Err(error) && error@ == (ErrorView::TranscriptionFailed {
            reason: cancelled_reason(),
        }),
        used_after == last_used,
        !cancelled_after,
        transcription_gate(cancelled_after, loaded_next, samples_next.len())
            != TranscriptionGate::Cancelled,
{
}

/// A model found idle for longer than the keep-alive threshold is unloaded
/// before anything else is done.
pub proof fn lemma_idle_model_is_unloaded<T: Transcriber, L: FnOnce() -> Result<String, CyranoError>>(
    adapter: T,
    last_used: Option<u64>,
    now: u64,
    locate: L,
    after: T,
    used_after: Option<u64>,
    ready: Result<(), CyranoError>,
)
    requires
        idle_at(last_used, now),
        model_ensured(adapter, last_used, now, locate, after, used_after, ready),
    ensures
        exists|evicted: T, unloaded: Result<(), CyranoError>| #[trigger]
            adapter.unloads(&evicted, unloaded) && (ready is Ok ==> unloaded is Ok),
{
}

/// A model found idle for longer than the keep-alive threshold is never
/// reused, as long as unloading the runtime leaves it without a model: the
/// call succeeds only by unloading the model, locating the model file and
/// loading it again.
pub proof fn lemma_idle_model_is_reloaded<T: Transcriber, L: FnOnce() -> Result<String, CyranoError>>(
    adapter: T,
    last_used: Option<u64>,
    now: u64,
    locate: L,
    after: T,
    used_after: Option<u64>,
    ready: Result<(), CyranoError>,
)
    requires
        unload_empties(adapter),
        idle_at(last_used, now),
        model_ensured(adapter, last_used, now, locate, after, used_after, ready),
        ready is Ok,
    ensures
        used_after == Some(now),
        exists|evicted: T, unloaded: Result<(), CyranoError>, path: String, outcome: Result<
            (),
            CyranoError,
        >|
            {
                &&& #[trigger] adapter.unloads(&evicted, unloaded)
                &&& unloaded is Ok
                &&& call_ensures(locate, (), Ok::<String, CyranoError>(path))
                &&& #[trigger] evicted.loads(path@, &after, outcome)
                &&& outcome is Ok
            },
{
    let (evicted, unloaded) = choose|evicted: T, unloaded: Result<(), CyranoError>| #[trigger]
        adapter.unloads(&evicted, unloaded) && match unloaded {
            Err(error) => {
                &&& ready == Err::<(), CyranoError>(error)
                &&& after == evicted
                &&& used_after == last_used
            },
            Ok(_) => model_made_ready(evicted, None, locate, now, after, used_after, ready),
        };
    let loaded = choose|loaded: bool| #[trigger]
        evicted.reports_loaded(loaded) && if loaded {
            &&& ready is Ok
            &&& after == evicted
            &&& used_after == Some(now)
        } else {
            model_fetched(evicted, None, locate, now, after, used_after, ready)
        };
    assert(!loaded);
    let located = choose|located: Result<String, CyranoError>| #[trigger]
        call_ensures(locate, (), located) && match located {
            Err(error) => {
                &&& ready == Err::<(), CyranoError>(error)
                &&& after == evicted
                &&& used_after == None::<u64>
            },
            Ok(path) => exists|outcome: Result<(), CyranoError>| #[trigger]
                evicted.loads(path@, &after, outcome) && match outcome {
                    Err(error) => {
                        &&& ready == Err::<(), CyranoError>(error)
                        &&& used_after == None::<u64>
                    },
                    Ok(_) => {
                        &&& ready is Ok
                        &&& used_after == Some(now)
                    },
                },
        };
    let path = located->Ok_0;
    let outcome = choose|outcome: Result<(), CyranoError>| #[trigger]
        evicted.loads(path@, &after, outcome) && match outcome {
            Err(error) => {
                &&& ready == Err::<(), CyranoError>(error)
                &&& used_after == None::<u64>
            },
            Ok(_) => {
                &&& ready is Ok
                &&& used_after == Some(now)
            },
        };
    assert(adapter.unloads(&evicted, unloaded) && unloaded is Ok && call_ensures(
        locate,
        (),
        Ok::<String, CyranoError>(path),
    ) && evicted.loads(path@, &after, outcome) && outcome is Ok);
}

/// A model found idle for longer than the keep-alive threshold is dropped
/// even where no model file can be located, as long as unloading the runtime
/// succeeds and leaves it without a model: the call fails with the error of
/// the lookup, no model is loaded afterwards, and the time of last use is
/// forgotten.
pub proof fn lemma_idle_model_is_dropped_without_file<
    T: Transcriber,
    L: FnOnce() -> Result<String, CyranoError>,
>(
    adapter: T,
    last_used: Option<u64>,
    now: u64,
    locate: L,
    after: T,
    used_after: Option<u64>,
    ready: Result<(), CyranoError>,
)
    requires
        unload_empties(adapter),
        forall|evicted: T, unloaded: Result<(), CyranoError>| #[trigger]
            adapter.unloads(&evicted, unloaded) ==> unloaded is Ok,
        forall|located: Result<String, CyranoError>| #[trigger]
            call_ensures(locate, (), located) ==> located is Err,
        idle_at(last_used, now),
        model_ensured(adapter, last_used, now, locate, after, used_after, ready),
    ensures
        exists|located: Result<String, CyranoError>| #[trigger]
            call_ensures(locate, (), located) && located is Err && ready == Err::<
                (),
                CyranoError,
            >(located->Err_0),
        used_after is None,
        forall|loaded: bool| #[trigger] after.reports_loaded(loaded) ==> !loaded,
{
    let (evicted, unloaded) = choose|evicted: T, unloaded: Result<(), CyranoError>| #[trigger]
        adapter.unloads(&evicted, unloaded) && match unloaded {
            Err(error) => {
                &&& ready == Err::<(), CyranoError>(error)
                &&& after == evicted
                &&& used_after == last_used
            },
            Ok(_) => model_made_ready(evicted, None, locate, now, after, used_after, ready),
        };
    let loaded = choose|loaded: bool| #[trigger]
        evicted.reports_loaded(loaded) && if loaded {
            &&& ready is Ok
            &&& after == evicted
            &&& used_after == Some(now)
        } else {
            model_fetched(evicted, None, locate, now, after, used_after, ready)
        };
    assert(!loaded);
    let located = choose|located: Result<String, CyranoError>| #[trigger]
        call_ensures(locate, (), located) && match located {
            Err(error) => {
                &&& ready == Err::<(), CyranoError>(error)
                &&& after == evicted
                &&& used_after == None::<u64>
            },
            Ok(path) => exists|outcome: Result<(), CyranoError>| #[trigger]
                evicted.loads(path@, &after, outcome) && match outcome {
                    Err(error) => {
                        &&& ready == Err::<(), CyranoError>(error)
                        &&& used_after == None::<u64>
                    },
                    Ok(_) => {
                        &&& ready is Ok
                        &&& used_after == Some(now)
                    },
                },
        };
    assert(call_ensures(locate, (), located) && located is Err);
    assert(after == evicted);
}

} // verus!
