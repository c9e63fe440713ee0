//! Session control for recording a live call: the rules by which the encoder is
//! configured, its diagnostics are read, the microphone is muted, live
//! transcription is switched and the operator's keys are handled.

pub mod config;
pub mod devices;
pub mod diagnostics;
pub mod encoder;
pub mod export;
pub mod mic;
pub mod output;
pub mod screen;
pub mod session;
pub mod shutdown;
pub mod text;
pub mod timecode;
pub mod transcription;
