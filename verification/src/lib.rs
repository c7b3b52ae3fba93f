//! Push-to-talk dictation core: the recording lifecycle, the streaming
//! resampler that feeds it, and the lifecycle of the speech-to-text model.
//!
//! Every component is an explicitly owned value. The embedding application
//! decides how the values are shared (typically one lock around each) and
//! supplies the platform capabilities through the traits in [`traits`].

pub mod commands;
pub mod domain;
pub mod traits;
pub mod services;
pub mod infrastructure;
