//! Choice of the input configuration and translation of device failures.
//!
//! The device is queried and driven by the caller. Which of its
//! configurations to capture with, how its samples are brought to the range
//! from -1 to 1, and which error a failure of the device becomes, is decided
//! here.

use crate::domain::{CyranoError, ErrorView};
use vstd::prelude::*;
use vstd::string::StringExecFns;

verus! {

/// Target sample rate of the captured stream, in hertz.
pub const TARGET_SAMPLE_RATE: u32 = 16_000;

/// How a device encodes one sample.
#[derive(Debug, Clone, Copy, PartialEq, Eq, Structural)]
pub enum SampleEncoding {
    /// 32-bit floating point, already in the range from -1 to 1.
    Float32,
    /// 16-bit signed integer.
    Int16,
    /// Any other encoding; not supported.
    Other,
}

/// The step at which a device failed.
#[derive(Debug, Clone, Copy, PartialEq, Eq, Structural)]
pub enum CaptureStep {
    /// Listing the input configurations of the device, to choose the one
    /// to capture with.
    SelectConfiguration,
    /// Listing the input configurations of the device, for any other end.
    ListConfigurations,
    /// Building the input stream.
    BuildStream,
    /// Starting the input stream.
    PlayStream,
}

/// What the device reported when it failed.
#[derive(Debug, Clone, Copy, PartialEq, Eq, Structural)]
pub enum DeviceFailure {
    /// The device is no longer available.
    DeviceNotAvailable,
    /// The device does not support the requested configuration.
    ConfigurationNotSupported,
    /// Anything else.
    Other,
}

/// Reason of the error for a device without input configurations.
pub open spec fn no_configurations_reason() -> Seq<char> {
    "No supported audio configurations found"@
}

/// Reason of the error for an encoding that cannot be captured.
pub open spec fn unsupported_encoding_reason(name: Seq<char>) -> Seq<char> {
    "Unsupported sample format: "@ + name
}

/// Whether `index` is the place of the first floating-point configuration.
pub open spec fn is_first_float(encodings: Seq<SampleEncoding>, index: int) -> bool {
    &&& 0 <= index < encodings.len()
    &&& encodings[index] == SampleEncoding::Float32
    &&& forall|earlier: int|
        0 <= earlier < index ==> #[trigger] encodings[earlier] != SampleEncoding::Float32
}

/// The configuration to capture with: the first floating-point one, else
/// the first of all; none where there is no configuration.
pub open spec fn preferred_configuration(encodings: Seq<SampleEncoding>) -> Option<int> {
    if encodings.len() == 0 {
        None
    } else if exists|index: int| is_first_float(encodings, index) {
        Some(choose|index: int| is_first_float(encodings, index))
    } else {
        Some(0)
    }
}

/// The number by which a raw sample is divided to bring it to the range
/// from -1 to 1; none for an encoding that is not supported.
pub open spec fn normalization_divisor(encoding: SampleEncoding) -> Option<u32> {
    match encoding {
        SampleEncoding::Float32 => Some(1u32),
        SampleEncoding::Int16 => Some(32768u32),
        SampleEncoding::Other => None,
    }
}

/// Reason of the error for configurations that could not be listed when one
/// was to be chosen.
pub open spec fn selection_failure(message: Seq<char>) -> Seq<char> {
    "Failed to get supported configs: "@ + message
}

/// The error that a failure of the device becomes. A device that vanished
/// while its configurations were listed or its stream was built counts as
/// denied microphone access. Everything else is a failed recording: its
/// reason is fixed for a configuration that the stream does not support,
/// and otherwise the device's own message, introduced where a
/// configuration was to be chosen.
pub open spec fn device_error(step: CaptureStep, failure: DeviceFailure, message: Seq<char>) -> ErrorView {
    if failure == DeviceFailure::DeviceNotAvailable && step != CaptureStep::PlayStream {
        ErrorView::MicAccessDenied
    } else if failure == DeviceFailure::ConfigurationNotSupported && step
        == CaptureStep::BuildStream {
        ErrorView::RecordingFailed { reason: "Audio format not supported"@ }
    } else if step == CaptureStep::SelectConfiguration {
        ErrorView::RecordingFailed { reason: selection_failure(message) }
    } else {
        ErrorView::RecordingFailed { reason: message }
    }
}

/// Chooses the input configuration among those that the device supports,
/// given the encoding of each: the place of the first floating-point one,
/// else of the first; `RecordingFailed` where the device supports none.
pub fn select_input_config(encodings: &[SampleEncoding]) -> (chosen: Result<usize, CyranoError>)
    ensures
        match preferred_configuration(encodings@) {
            Some(index) => chosen == Ok::<usize, CyranoError>(index as usize),
            None => chosen matches Err(error) && error@ == (ErrorView::RecordingFailed {
                reason: no_configurations_reason(),
            }),
        },
{
    if encodings.len() == 0 {
        return Err(
            CyranoError::RecordingFailed {
                reason: String::from_str("No supported audio configurations found"),
            },
        );
    }
    let mut index: usize = 0;
    while index < encodings.len()
        invariant
            index <= encodings.len(),
            encodings@.len() > 0,
            forall|earlier: int|
                0 <= earlier < index ==> #[trigger] encodings@[earlier] != SampleEncoding::Float32,
        decreases encodings.len() - index,
    {
        if encodings[index] == SampleEncoding::Float32 {
            assert(is_first_float(encodings@, index as int));
            return Ok(index);
        }
        index += 1;
    }
    Ok(0)
}

/// The number by which the raw samples of a stream are divided before
/// resampling; `RecordingFailed`, naming the encoding, where it is not
/// supported.
pub fn sample_divisor(encoding: SampleEncoding, name: &str) -> (divisor: Result<u32, CyranoError>)
    ensures
        match normalization_divisor(encoding) {
            Some(by) => divisor == Ok::<u32, CyranoError>(by),
            None => divisor matches Err(error) && error@ == (ErrorView::RecordingFailed {
                reason: unsupported_encoding_reason(name@),
            }),
        },
{
    match encoding {
        SampleEncoding::Float32 => Ok(1),
        SampleEncoding::Int16 => Ok(32768),
        SampleEncoding::Other => {
            let mut reason = String::from_str("Unsupported sample format: ");
            reason.append(name);
            Err(CyranoError::RecordingFailed { reason })
        },
    }
}

/// Translates a failure of the device at the given step, with the device's
/// own message, into the library's error.
pub fn capture_error(step: CaptureStep, failure: DeviceFailure, message: String) -> (error:
    CyranoError)
    ensures
        error@ == device_error(step, failure, message@),
{
    if failure == DeviceFailure::DeviceNotAvailable && step != CaptureStep::PlayStream {
        CyranoError::MicAccessDenied
    } else if failure == DeviceFailure::ConfigurationNotSupported && step
        == CaptureStep::BuildStream {
        CyranoError::RecordingFailed { reason: String::from_str("Audio format not supported") }
    } else if step == CaptureStep::SelectConfiguration {
        let mut reason = String::from_str("Failed to get supported configs: ");
        reason.append(message.as_str());
        CyranoError::RecordingFailed { reason }
    } else {
        CyranoError::RecordingFailed { reason: message }
    }
}

} // verus!
