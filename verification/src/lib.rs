//! Verified core of a voice-triggered command pipeline: sample handling,
//! chord parsing, intent decoding and the sequencing rules that tie them
//! together.

pub mod audio;
pub mod capture;
pub mod cli;
pub mod config;
pub mod executor;
pub mod feedback;
pub mod hotkey;
pub mod intent;
pub mod level;
pub mod mapping;
pub mod pipeline;
pub mod text;
pub mod transcription;
pub mod windows_api;
