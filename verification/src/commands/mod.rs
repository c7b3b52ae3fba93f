//! What the commands of the user interface decide.

pub mod recording_overlay;
