//! Push-to-talk dictation engine: audio capture bookkeeping, the session state
//! machine, and the vocabulary rules applied around a transcription.

pub mod audio;
pub mod commands;
pub mod credentials;
pub mod domain;
pub mod json;
pub mod settings;
pub mod text;
pub mod transcribe;
pub mod transcription_history;
