//! Audio capture support.

pub mod capture_format;
pub mod resampler;
