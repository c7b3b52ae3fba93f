//! Signal processing and adapters at the edge of the library.

pub mod audio;
pub mod keyboard;
pub mod memory;
