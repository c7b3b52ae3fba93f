//! Audio capture port.

use crate::domain::CyranoError;
use vstd::prelude::*;

verus! {

/// What a stopped source hands back, with the samples as a sequence.
pub open spec fn capture_outcome<S>(outcome: Result<Vec<S>, CyranoError>) -> Result<
    Seq<S>,
    CyranoError,
> {
    match outcome {
        Ok(samples) => Ok(samples@),
        Err(error) => Err(error),
    }
}

/// A source of mono samples at the target rate.
///
/// `start_capture` begins continuous delivery into storage owned by the
/// source; `stop_capture` halts delivery, hands back everything accumulated
/// since the start and leaves the storage empty.
///
/// Each operation has a relation that tells which results it can have. The
/// services state what they do in terms of these relations. A source that
/// does not define them admits every result, so nothing is taken on faith
/// about it.
pub trait AudioCapture: Sized {
    /// The type of one sample.
    type Sample;

    /// `after` and `outcome` are a possible result of starting the source in
    /// state `self`.
    open spec fn starts(&self, after: &Self, outcome: Result<(), CyranoError>) -> bool {
        true
    }

    /// `after` and `outcome` are a possible result of stopping the source in
    /// state `self`.
    open spec fn stops(&self, after: &Self, outcome: Result<Seq<Self::Sample>, CyranoError>) -> bool {
        true
    }

    /// `capturing` is a possible answer of the source in state `self` to
    /// whether it is capturing.
    open spec fn reports_capturing(&self, capturing: bool) -> bool {
        true
    }

    /// Start capturing audio.
    fn start_capture(&mut self) -> (outcome: Result<(), CyranoError>)
        ensures
            old(self).starts(final(self), outcome),
    ;

    /// Stop capturing audio and return the captured samples.
    fn stop_capture(&mut self) -> (outcome: Result<Vec<Self::Sample>, CyranoError>)
        ensures
            old(self).stops(final(self), capture_outcome(outcome)),
    ;

    /// Whether audio capture is currently active.
    fn is_capturing(&self) -> (capturing: bool)
        ensures
            self.reports_capturing(capturing),
    ;
}

} // verus!
