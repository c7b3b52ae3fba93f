//! In-memory adapters.
//!
//! Stand-ins for the platform adapters that keep everything in memory: a
//! capture source that is fed by hand and a model runtime that answers with
//! a fixed text. They show that the contracts of the ports can be met, and
//! let the services be exercised without hardware or a model file.

use crate::domain::{CyranoError, ErrorView};
use crate::traits::audio_capture::AudioCapture;
use crate::services::transcription_service::unload_empties;
use crate::traits::transcriber::Transcriber;
use std::marker::PhantomData;
use vstd::prelude::*;
use vstd::string::StringExecFns;

verus! {

/// A capture source fed by hand. Samples delivered while the source is
/// capturing accumulate until it is stopped; samples delivered while it is
/// not are dropped.
pub struct MemoryCapture<S> {
    available: bool,
    capturing: bool,
    buffer: Vec<S>,
}

impl<S> MemoryCapture<S> {
    /// Whether a device is present.
    pub closed spec fn available(&self) -> bool {
        self.available
    }

    /// Whether the source is accumulating samples.
    pub closed spec fn active(&self) -> bool {
        self.capturing
    }

    /// The samples accumulated since the source was started.
    pub closed spec fn accumulated(&self) -> Seq<S> {
        self.buffer@
    }

    /// A stopped source with nothing accumulated. A source that is not
    /// `available` refuses to start, as one without a device does.
    pub fn new(available: bool) -> (source: Self)
        ensures
            source.available() == available,
            !source.active(),
            source.accumulated() == Seq::<S>::empty(),
    {
        MemoryCapture { available, capturing: false, buffer: Vec::new() }
    }

    /// Delivers one sample: kept if the source is capturing, dropped if not.
    pub fn deliver(&mut self, sample: S)
        ensures
            final(self).available() == old(self).available(),
            final(self).active() == old(self).active(),
            final(self).accumulated() == if old(self).active() {
                old(self).accumulated().push(sample)
            } else {
                old(self).accumulated()
            },
    {
        if self.capturing {
            self.buffer.push(sample);
        }
    }
}

impl<S> AudioCapture for MemoryCapture<S> {
    type Sample = S;

    open spec fn reports_capturing(&self, capturing: bool) -> bool {
        capturing == self.active()
    }

    open spec fn starts(&self, after: &Self, outcome: Result<(), CyranoError>) -> bool {
        if self.active() {
            outcome is Ok && *after == *self
        } else if self.available() {
            &&& outcome is Ok
            &&& after.available()
            &&& after.active()
            &&& after.accumulated() == self.accumulated()
        } else {
            &&& outcome matches Err(error)
            &&& error@ == ErrorView::MicAccessDenied
            &&& *after == *self
        }
    }

    open spec fn stops(&self, after: &Self, outcome: Result<Seq<S>, CyranoError>) -> bool {
        &&& outcome == Ok::<Seq<S>, CyranoError>(self.accumulated())
        &&& after.available() == self.available()
        &&& !after.active()
        &&& after.accumulated() == Seq::<S>::empty()
    }

    fn start_capture(&mut self) -> (outcome: Result<(), CyranoError>) {
        if self.capturing {
            return Ok(());
        }
        if !self.available {
            return Err(CyranoError::MicAccessDenied);
        }
        self.capturing = true;
        Ok(())
    }

    fn stop_capture(&mut self) -> (outcome: Result<Vec<S>, CyranoError>) {
        self.capturing = false;
        let mut samples = Vec::new();
        std::mem::swap(&mut self.buffer, &mut samples);
        Ok(samples)
    }

    fn is_capturing(&self) -> (capturing: bool) {
        self.capturing
    }
}

/// A model runtime that knows of at most one model file and answers every
/// transcription with the same text.
pub struct MemoryTranscriber<S> {
    installed: Option<String>,
    transcript: String,
    model: Option<String>,
    loads: u64,
    samples: PhantomData<S>,
}

impl<S> MemoryTranscriber<S> {
    /// Path of the model file that exists, if one does.
    pub closed spec fn installed(&self) -> Option<Seq<char>> {
        match self.installed {
            Some(path) => Some(path@),
            None => None,
        }
    }

    /// The text with which every transcription is answered.
    pub closed spec fn transcript(&self) -> Seq<char> {
        self.transcript@
    }

    /// Path of the model that is loaded, if one is.
    pub closed spec fn model(&self) -> Option<Seq<char>> {
        match self.model {
            Some(path) => Some(path@),
            None => None,
        }
    }

    /// Number of successful loads so far, stopping at the largest number.
    pub closed spec fn successful_loads(&self) -> u64 {
        self.loads
    }

    /// A runtime with no model loaded. `installed` is the path of the model
    /// file that exists, if one does.
    pub fn new(installed: Option<String>, transcript: String) -> (runtime: Self)
        ensures
            runtime.installed() == match installed {
                Some(path) => Some(path@),
                None => None,
            },
            runtime.transcript() == transcript@,
            runtime.model() is None,
            runtime.successful_loads() == 0,
    {
        MemoryTranscriber { installed, transcript, model: None, loads: 0, samples: PhantomData }
    }

    /// Number of successful loads so far.
    pub fn load_count(&self) -> (loads: u64)
        ensures
            loads == self.successful_loads(),
    {
        self.loads
    }
}

impl<S> Transcriber for MemoryTranscriber<S> {
    type Sample = S;

    open spec fn reports_loaded(&self, loaded: bool) -> bool {
        loaded == (self.model() is Some)
    }

    open spec fn loads(&self, path: Seq<char>, after: &Self, outcome: Result<(), CyranoError>) -> bool {
        &&& after.installed() == self.installed()
        &&& after.transcript() == self.transcript()
        &&& if self.installed() == Some(path) {
            &&& outcome is Ok
            &&& after.model() == Some(path)
            &&& after.successful_loads() == if self.successful_loads() < u64::MAX {
                (self.successful_loads() + 1) as u64
            } else {
                self.successful_loads()
            }
        } else {
            &&& outcome matches Err(error)
            &&& error@ == (ErrorView::ModelNotFound { path })
            &&& after.model() == self.model()
            &&& after.successful_loads() == self.successful_loads()
        }
    }

    open spec fn transcribes(&self, samples: Seq<S>, outcome: Result<String, CyranoError>) -> bool {
        if self.model() is Some {
            outcome matches Ok(text) && text@ == self.transcript()
        } else {
            outcome matches Err(error) && error@ == (ErrorView::TranscriptionFailed {
                reason: "Model not loaded"@,
            })
        }
    }

    open spec fn unloads(&self, after: &Self, outcome: Result<(), CyranoError>) -> bool {
        &&& outcome is Ok
        &&& after.installed() == self.installed()
        &&& after.transcript() == self.transcript()
        &&& after.model() is None
        &&& after.successful_loads() == self.successful_loads()
    }

    fn load_model(&mut self, path: &str) -> (outcome: Result<(), CyranoError>) {
        let wanted = String::from_str(path);
        let found = match &self.installed {
            Some(installed) => *installed == wanted,
            None => false,
        };
        if found {
            self.model = Some(wanted);
            if self.loads < u64::MAX {
                self.loads = self.loads + 1;
            }
            Ok(())
        } else {
            Err(CyranoError::ModelNotFound { path: wanted })
        }
    }

    fn transcribe(&self, samples: &[S]) -> (outcome: Result<String, CyranoError>) {
        match &self.model {
            Some(_) => Ok(self.transcript.clone()),
            None => Err(
                CyranoError::TranscriptionFailed { reason: String::from_str("Model not loaded") },
            ),
        }
    }

    fn is_loaded(&self) -> (loaded: bool) {
        self.model.is_some()
    }

    fn unload(&mut self) -> (outcome: Result<(), CyranoError>) {
        self.model = None;
        Ok(())
    }
}

/// Unloading the in-memory runtime leaves it without a model, so an idle
/// model in it is never reused.
pub proof fn lemma_memory_unload_empties<S>(runtime: MemoryTranscriber<S>)
    ensures
        unload_empties(runtime),
{
}

} // verus!
