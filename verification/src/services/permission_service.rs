//! Microphone permission.
//!
//! The platform is probed by the caller: it looks for the default input
//! device and asks it for its input configurations. What the probe means for
//! the permission is decided here.

use crate::domain::{CyranoError, ErrorView, PermissionStatus};
use vstd::prelude::*;
use vstd::string::StringExecFns;

verus! {

/// What probing the default input device came to.
pub enum MicrophoneProbe {
    /// There is no default input device.
    NoDevice,
    /// The device reported this many input configurations.
    Configurations { count: usize },
    /// The device is no longer available.
    DeviceNotAvailable,
    /// Asking the device for its configurations failed otherwise.
    Failed { message: String },
}

/// Reason of the error for a probe that failed for another cause than a
/// missing device.
pub open spec fn probe_failure(message: Seq<char>) -> Seq<char> {
    "Failed to check microphone permission: "@ + message
}

/// The permission that a probe shows: granted exactly where the device
/// reported at least one input configuration.
pub open spec fn permission_shown(probe: MicrophoneProbe) -> PermissionStatus {
    match probe {
        MicrophoneProbe::Configurations { count } => if count > 0 {
            PermissionStatus::Granted
        } else {
            PermissionStatus::Denied
        },
        _ => PermissionStatus::Denied,
    }
}

/// Check the current microphone permission status, given a probe of the
/// default input device.
pub fn check_microphone_permission(probe: &MicrophoneProbe) -> (status: PermissionStatus)
    ensures
        status == permission_shown(*probe),
{
    match probe {
        MicrophoneProbe::Configurations { count } => if *count > 0 {
            PermissionStatus::Granted
        } else {
            PermissionStatus::Denied
        },
        _ => PermissionStatus::Denied,
    }
}

/// The answer to a permission request, given the probe made after the
/// system asked the user: `Ok(true)` where access was granted,
/// `MicAccessDenied` where it was not, `RecordingFailed` where the probe
/// itself failed.
pub fn request_microphone_permission(probe: MicrophoneProbe) -> (granted: Result<bool, CyranoError>)
    ensures
        match probe {
            MicrophoneProbe::Configurations { count } if count > 0 => granted == Ok::<
                bool,
                CyranoError,
            >(true),
            MicrophoneProbe::Failed { message } => granted matches Err(error) && error@ == (
            ErrorView::RecordingFailed { reason: probe_failure(message@) }),
            _ => granted matches Err(error) && error@ == ErrorView::MicAccessDenied,
        },
{
    match probe {
        MicrophoneProbe::Configurations { count } => if count > 0 {
            Ok(true)
        } else {
            Err(CyranoError::MicAccessDenied)
        },
        MicrophoneProbe::Failed { message } => {
            let mut reason = String::from_str("Failed to check microphone permission: ");
            reason.append(message.as_str());
            Err(CyranoError::RecordingFailed { reason })
        },
        _ => Err(CyranoError::MicAccessDenied),
    }
}

} // verus!
