//! The collaborators a session drives. The engine decides when each is called
//! and with what; what they answer is theirs to decide.

use crate::settings::AppSettings;
use vstd::prelude::*;

verus! {

/// Where settings are kept between runs.
pub trait SettingsStore: Send + Sync {
    /// The settings as they are stored now.
    fn load(&self) -> AppSettings;

    /// Stores `settings`, or says why that failed.
    fn save(&self, settings: &AppSettings) -> Result<(), String>;
}

/// The microphone side of a session.
pub trait Recorder: Send + Sync {
    /// Starts capturing, or says why that failed.
    fn start(&self) -> Result<(), String>;

    /// Stops capturing and hands over the recording as an audio container.
    fn stop(&self) -> Result<Vec<u8>, String>;
}

/// Delivery of a transcript to the focused application.
pub trait Paster: Send + Sync {
    /// Types `text` into whatever has the focus.
    fn paste(&self, text: &str) -> Result<(), String>;

    /// Leaves `text` on the system clipboard.
    fn copy(&self, text: &str) -> Result<(), String>;
}

/// The speech-to-text service.
pub trait Transcriber: Send + Sync {
    /// The transcript of `audio_wav`, a single-channel 16-bit PCM container,
    /// with `prompt` as an optional hint.
    fn transcribe(
        &self,
        settings: &AppSettings,
        audio_wav: Vec<u8>,
        prompt: Option<&str>,
    ) -> Result<String, String>;
}

/// Where finished transcripts are remembered.
pub trait HistorySink: Send + Sync {
    /// Remembers `text` as the newest transcript and keeps at most `max_items`.
    fn append(&self, text: &str, max_items: usize) -> Result<(), String>;
}

} // verus!
