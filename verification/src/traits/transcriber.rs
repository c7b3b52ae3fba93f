//! Transcription port.

use crate::domain::CyranoError;
use vstd::prelude::*;

verus! {

/// A speech-to-text model runtime.
///
/// The runtime is opaque to the library: a model is loaded from a path, turns
/// samples into text, and is unloaded to free its memory.
///
/// Each operation has a relation that tells which results it can have. The
/// services state what they do in terms of these relations. A runtime that
/// does not define them admits every result, so nothing is taken on faith
/// about it.
pub trait Transcriber: Sized {
    /// The type of one sample.
    type Sample;

    /// `after` and `outcome` are a possible result of loading the model at
    /// `path` into the runtime in state `self`.
    open spec fn loads(&self, path: Seq<char>, after: &Self, outcome: Result<(), CyranoError>) -> bool {
        true
    }

    /// `outcome` is a possible result of transcribing `samples` with the
    /// runtime in state `self`.
    open spec fn transcribes(&self, samples: Seq<Self::Sample>, outcome: Result<String, CyranoError>) -> bool {
        true
    }

    /// `loaded` is a possible answer of the runtime in state `self` to
    /// whether a model is loaded.
    open spec fn reports_loaded(&self, loaded: bool) -> bool {
        true
    }

    /// `after` and `outcome` are a possible result of unloading the runtime
    /// in state `self`.
    open spec fn unloads(&self, after: &Self, outcome: Result<(), CyranoError>) -> bool {
        true
    }

    /// Load a model from the given path.
    fn load_model(&mut self, path: &str) -> (outcome: Result<(), CyranoError>)
        ensures
            old(self).loads(path@, final(self), outcome),
    ;

    /// Transcribe mono samples at the target rate to text.
    fn transcribe(&self, samples: &[Self::Sample]) -> (outcome: Result<String, CyranoError>)
        ensures
            self.transcribes(samples@, outcome),
    ;

    /// Whether a model is currently loaded.
    fn is_loaded(&self) -> (loaded: bool)
        ensures
            self.reports_loaded(loaded),
    ;

    /// Unload the model to free memory.
    fn unload(&mut self) -> (outcome: Result<(), CyranoError>)
        ensures
            old(self).unloads(final(self), outcome),
    ;
}

} // verus!
