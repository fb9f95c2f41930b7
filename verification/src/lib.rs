//! Core of a minimal on-premise audio transcription tool.
//!
//! Audio is acquired as mono 16 kHz PCM. Inside this crate a sample is the
//! raw signed 16-bit amplitude of that stream; producers that hand the
//! recognition engine normalized floating-point samples divide by 32768 at
//! the boundary. All buffering, validation, stop decisions, text assembly
//! and output formatting live here, with contracts; device, file and engine
//! I/O live in the surrounding binary.

pub mod capture;
pub mod config;
pub mod error;
pub mod output;
pub mod sample;
pub mod silence;
pub mod text;
pub mod transcribe;

pub use error::ListenError;
