//! Decisions behind system-audio capture and cloud transcription, stated and
//! proved over plain values.
//!
//! The crate holds no device handle, channel or socket. A host application
//! performs the audio and network operations and reports what came back; the
//! functions here say what to do next and what the outcome is.

pub mod capture;
pub mod devices;
pub mod samples;
pub mod text;
pub mod transcription;
pub mod wav;
