//! Recording state store.
//!
//! Holds the current workflow state and the most recently captured sample
//! buffer. The store is generic in the sample type: it moves samples, it
//! never computes with them.

use crate::domain::RecordingState;
use vstd::prelude::*;
use vstd::slice::slice_to_vec;

verus! {

/// The workflow state together with the captured audio.
pub struct RecordingStore<S> {
    state: RecordingState,
    buffer: Vec<S>,
}

/// Mathematical model of a [`RecordingStore`].
pub struct StoreView<S> {
    pub state: RecordingState,
    pub buffer: Seq<S>,
}

impl<S> StoreView<S> {
    /// The store after the workflow moved to `state`.
    pub open spec fn with_state(self, state: RecordingState) -> Self {
        StoreView { state, buffer: self.buffer }
    }

    /// The store after its buffer was replaced by `samples`.
    pub open spec fn with_buffer(self, samples: Seq<S>) -> Self {
        StoreView { state: self.state, buffer: samples }
    }

    /// The store after its buffer was emptied.
    pub open spec fn cleared(self) -> Self {
        self.with_buffer(Seq::empty())
    }

    /// Taking the buffer: what is handed out, and the store that is left.
    pub open spec fn taken(self) -> (Seq<S>, Self) {
        (self.buffer, self.cleared())
    }
}

impl<S> View for RecordingStore<S> {
    type V = StoreView<S>;

    closed spec fn view(&self) -> StoreView<S> {
        StoreView { state: self.state, buffer: self.buffer@ }
    }
}

impl<S> RecordingStore<S> {
    /// A store at rest: idle, with an empty buffer.
    pub fn new() -> (store: Self)
        ensures
            store@ == (StoreView { state: RecordingState::Idle, buffer: Seq::<S>::empty() }),
    {
        RecordingStore { state: RecordingState::Idle, buffer: Vec::new() }
    }

    /// Number of samples currently buffered.
    pub fn buffered_len(&self) -> (len: usize)
        ensures
            len == self@.buffer.len(),
    {
        self.buffer.len()
    }

    /// Moves `samples` into the buffer, dropping what it held.
    pub fn store_samples(&mut self, samples: Vec<S>)
        ensures
            final(self)@ == old(self)@.with_buffer(samples@),
    {
        self.buffer = samples;
    }
}

/// Set the current recording state.
pub fn set_recording_state<S>(store: &mut RecordingStore<S>, state: RecordingState)
    ensures
        final(store)@ == old(store)@.with_state(state),
{
    store.state = state;
}

/// The current recording state.
pub fn get_recording_state<S>(store: &RecordingStore<S>) -> (state: RecordingState)
    ensures
        state == store@.state,
{
    store.state
}

/// Replace the audio buffer with a copy of `samples`.
pub fn set_audio_samples<S: Copy>(store: &mut RecordingStore<S>, samples: &[S]) -> (done: Result<
    (),
    String,
>)
    ensures
        done is Ok,
        final(store)@ == old(store)@.with_buffer(samples@),
{
    store.buffer = slice_to_vec(samples);
    Ok(())
}

/// Take the audio buffer, leaving the store's buffer empty.
pub fn take_audio_samples<S>(store: &mut RecordingStore<S>) -> (taken: Result<Vec<S>, String>)
    ensures
        taken matches Ok(samples) && samples@ == old(store)@.taken().0,
        final(store)@ == old(store)@.taken().1,
{
    let mut samples = Vec::new();
    std::mem::swap(&mut store.buffer, &mut samples);
    Ok(samples)
}

/// Clear the audio buffer without returning it.
pub fn clear_audio_buffer<S>(store: &mut RecordingStore<S>) -> (done: Result<(), String>)
    ensures
        done is Ok,
        final(store)@ == old(store)@.cleared(),
{
    store.buffer.clear();
    Ok(())
}

} // verus!
