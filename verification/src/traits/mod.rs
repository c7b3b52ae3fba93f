//! The capabilities that the library consumes from its environment.
//!
//! The services depend on these traits, never on a concrete platform adapter.
//! Each trait comes with a model (its `spec` functions) in which the services
//! state what they hand to an adapter and what they do with its answer.

pub mod audio_capture;
pub mod transcriber;
