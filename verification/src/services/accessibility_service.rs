//! Accessibility permission, which cursor insertion needs.
//!
//! The platform is asked by the caller. Its answer is `None` on a platform
//! that has no accessibility interface, and otherwise tells whether the
//! process is trusted. The platform cannot tell "denied" from "not yet
//! asked": an untrusted process counts as not yet asked, so that the user
//! can still be prompted.

use crate::domain::{CyranoError, ErrorView, PermissionStatus};
use vstd::prelude::*;
use vstd::string::StringExecFns;

verus! {

/// Reason of the error for opening the settings on an unsupported platform.
pub open spec fn settings_unsupported() -> Seq<char> {
    "Accessibility settings are only available on macOS"@
}

/// Reason of the error for settings that failed to open.
pub open spec fn settings_failure(cause: Seq<char>) -> Seq<char> {
    "Failed to open Accessibility settings: "@ + cause
}

/// The accessibility permission status that the platform's answer shows.
pub open spec fn accessibility_status(trusted: Option<bool>) -> PermissionStatus {
    match trusted {
        Some(true) => PermissionStatus::Granted,
        Some(false) => PermissionStatus::NotDetermined,
        None => PermissionStatus::Denied,
    }
}

/// Check the current accessibility permission status.
pub fn check_accessibility_permission(trusted: Option<bool>) -> (status: PermissionStatus)
    ensures
        status == accessibility_status(trusted),
{
    match trusted {
        Some(true) => PermissionStatus::Granted,
        Some(false) => PermissionStatus::NotDetermined,
        None => PermissionStatus::Denied,
    }
}

/// The answer to a request for accessibility permission, given what the
/// platform said after prompting the user. A refusal is no error: the
/// application then works with the clipboard alone.
pub fn request_accessibility_permission(trusted: Option<bool>) -> (granted: Result<
    bool,
    CyranoError,
>)
    ensures
        granted == Ok::<bool, CyranoError>(trusted == Some(true)),
{
    match trusted {
        Some(true) => Ok(true),
        _ => Ok(false),
    }
}

/// The answer to a request to open the accessibility settings, given how
/// opening them went: `None` on a platform without such settings, else the
/// outcome of the attempt with the cause of its failure.
pub fn open_accessibility_settings(opened: Option<Result<(), String>>) -> (done: Result<
    (),
    CyranoError,
>)
    ensures
        match opened {
            Some(Ok(_)) => done is Ok,
            Some(Err(cause)) => done matches Err(error) && error@ == (
            ErrorView::OpenSettingsFailed { reason: settings_failure(cause@) }),
            None => done matches Err(error) && error@ == (ErrorView::OpenSettingsFailed {
                reason: settings_unsupported(),
            }),
        },
{
    match opened {
        Some(Ok(_)) => Ok(()),
        Some(Err(cause)) => {
            let mut reason = String::from_str("Failed to open Accessibility settings: ");
            reason.append(cause.as_str());
            Err(CyranoError::OpenSettingsFailed { reason })
        },
        None => Err(
            CyranoError::OpenSettingsFailed {
                reason: String::from_str("Accessibility settings are only available on macOS"),
            },
        ),
    }
}

} // verus!
