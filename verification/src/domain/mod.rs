//! Core domain types, free of any dependency on the other modules.

pub mod error;
pub mod state;

pub use error::{CyranoError, ErrorView};
pub use state::{PermissionStatus, RecordingState};
