//! Output of a transcription: always to the clipboard, and at the cursor
//! where the accessibility permission allows it.
//!
//! Writing to the clipboard and simulating the paste keystroke are done by
//! the caller. Whether to insert at the cursor, and what the outcome is, is
//! decided here.

use crate::domain::{CyranoError, ErrorView, PermissionStatus};
use crate::services::accessibility_service::{accessibility_status, check_accessibility_permission};
use vstd::prelude::*;

verus! {

/// Whether cursor insertion is available: exactly where the accessibility
/// permission is granted.
pub open spec fn insertion_available(trusted: Option<bool>) -> bool {
    accessibility_status(trusted) == PermissionStatus::Granted
}

/// Check if cursor insertion is available, given the platform's answer on
/// accessibility trust.
pub fn is_cursor_insertion_available(trusted: Option<bool>) -> (available: bool)
    ensures
        available == insertion_available(trusted),
{
    let status = check_accessibility_permission(trusted);
    status == PermissionStatus::Granted
}

/// The answer to an attempt to copy text to the clipboard: the cause of a
/// failure becomes the reason of `ClipboardFailed`.
pub fn copy_to_clipboard(written: Result<(), String>) -> (copied: Result<(), CyranoError>)
    ensures
        match written {
            Ok(_) => copied is Ok,
            Err(cause) => copied matches Err(error) && error@ == (ErrorView::ClipboardFailed {
                reason: cause@,
            }),
        },
{
    match written {
        Ok(_) => Ok(()),
        Err(cause) => Err(CyranoError::ClipboardFailed { reason: cause }),
    }
}

/// Chooses the output mode once the text has been written to the clipboard.
/// Fails with `ClipboardFailed` where the write failed. Otherwise returns
/// whether the text is to be inserted at the cursor as well.
pub fn output_transcription(written: Result<(), String>, trusted: Option<bool>) -> (inserted:
    Result<bool, CyranoError>)
    ensures
        match written {
            Ok(_) => inserted == Ok::<bool, CyranoError>(insertion_available(trusted)),
            Err(cause) => inserted matches Err(error) && error@ == (ErrorView::ClipboardFailed {
                reason: cause@,
            }),
        },
{
    match copy_to_clipboard(written) {
        Err(error) => Err(error),
        Ok(_) => Ok(is_cursor_insertion_available(trusted)),
    }
}

} // verus!
