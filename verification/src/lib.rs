//! Core logic of the Ottex dictation engine: configuration rules, provider
//! routing, retry scheduling, recording and inference state machines, and the
//! text handling around transcripts.

pub mod ai_shortcuts;
pub mod audio;
pub mod config;
pub mod control;
pub mod engine;
pub mod hotkey;
pub mod inference;
pub mod retry;
pub mod text;
pub mod transcription;
pub mod tray;

pub use engine::{EngineConfig, OttexEngine, OttexError};
