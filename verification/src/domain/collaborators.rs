//! The collaborators of a session together with the record of what was asked
//! of them. Nothing outside this module can reach a collaborator without the
//! record growing, or make the record grow without reaching one.

use crate::domain::ports::{HistorySink, Paster, Recorder, SettingsStore, Transcriber};
use crate::domain::types::{DictationUpdate, UpdateView};
use crate::settings::{AppSettings, SettingsView};
use crate::text::result_text;
use vstd::prelude::*;

verus! {

/// What is handed to the transcriber for one recording: the settings as they
/// were when the recording stopped, the audio, and the vocabulary hint.
pub struct TranscriptionRequest {
    pub settings: AppSettings,
    pub audio: Vec<u8>,
    pub prompt: Option<String>,
}

/// The hint of a request as a borrowed string.
pub fn prompt_text(prompt: &Option<String>) -> (text: Option<&str>)
    ensures
        text.deep_view() == prompt.deep_view(),
{
    match prompt {
        Some(hint) => Some(hint.as_str()),
        None => None,
    }
}

/// Whether an observer's callback accepts every update.
pub open spec fn accepts_updates<F: FnMut(DictationUpdate)>(on_update: F) -> bool {
    forall|update: DictationUpdate| call_requires(on_update, (update,))
}

/// One thing a session did towards the outside: what it handed over, and
/// what came back.
pub enum PortCall {
    /// The settings store was asked for the settings.
    Load { loaded: SettingsView },
    /// The settings store was asked to store settings.
    Save { settings: SettingsView, saved: Result<(), Seq<char>> },
    /// The recorder was asked to start.
    StartRecorder { started: Result<(), Seq<char>> },
    /// The recorder was asked to stop and hand over the recording.
    StopRecorder { recorded: Result<Seq<u8>, Seq<char>> },
    /// The transcriber was asked for a transcript.
    Transcribe {
        settings: SettingsView,
        audio: Seq<u8>,
        prompt: Option<Seq<char>>,
        answer: Result<Seq<char>, Seq<char>>,
    },
    /// The history was asked to remember a transcript.
    Remember { text: Seq<char>, max_items: nat, remembered: Result<(), Seq<char>> },
    /// The paster was asked to deliver a transcript.
    Paste { text: Seq<char>, pasted: Result<(), Seq<char>> },
    /// The paster was asked to leave a transcript on the clipboard.
    Copy { text: Seq<char>, copied: Result<(), Seq<char>> },
    /// An observer was handed an update.
    Tell { update: UpdateView },
}

/// A collaborator's answer that carries no value, as plain text.
pub open spec fn done_view(answer: Result<(), String>) -> Result<(), Seq<char>> {
    match answer {
        Ok(_) => Ok(()),
        Err(reason) => Err(reason@),
    }
}

/// The recorder's answer to a stop, as plain values.
pub open spec fn recorded_view(answer: Result<Vec<u8>, String>) -> Result<Seq<u8>, Seq<char>> {
    match answer {
        Ok(audio) => Ok(audio@),
        Err(reason) => Err(reason@),
    }
}

/// The collaborators of a session and the record of what was asked of them.
pub struct Collaborators {
    recorder: Box<dyn Recorder>,
    settings_store: Box<dyn SettingsStore>,
    transcriber: Box<dyn Transcriber>,
    paster: Box<dyn Paster>,
    history: Option<Box<dyn HistorySink>>,
    calls: Ghost<Seq<PortCall>>,
}

impl Collaborators {
    /// Everything that was asked of a collaborator or told to an observer,
    /// oldest first.
    pub closed spec fn calls(&self) -> Seq<PortCall> {
        self.calls@
    }

    /// Whether a history is attached.
    pub closed spec fn remembers(&self) -> bool {
        self.history is Some
    }

    /// The given collaborators, without a history; nothing has been asked of them.
    pub fn new(
        recorder: Box<dyn Recorder>,
        settings_store: Box<dyn SettingsStore>,
        transcriber: Box<dyn Transcriber>,
        paster: Box<dyn Paster>,
    ) -> (collaborators: Self)
        ensures
            collaborators.calls() == Seq::<PortCall>::empty(),
            !collaborators.remembers(),
    {
        Collaborators {
            recorder,
            settings_store,
            transcriber,
            paster,
            history: None,
            calls: Ghost(Seq::empty()),
        }
    }

    /// The same collaborators with `history` attached.
    pub fn with_history(self, history: Box<dyn HistorySink>) -> (collaborators: Self)
        ensures
            collaborators.calls() == self.calls(),
            collaborators.remembers(),
    {
        Collaborators {
            recorder: self.recorder,
            settings_store: self.settings_store,
            transcriber: self.transcriber,
            paster: self.paster,
            history: Some(history),
            calls: self.calls,
        }
    }

    /// Asks the settings store for the settings.
    pub fn load_settings(&mut self) -> (loaded: AppSettings)
        ensures
            final(self).remembers() == old(self).remembers(),
            final(self).calls() == old(self).calls().push(PortCall::Load { loaded: loaded@ }),
    {
        let loaded = self.settings_store.load();
        proof {
            self.calls@ = self.calls@.push(PortCall::Load { loaded: loaded@ });
        }
        loaded
    }

    /// Asks the settings store to store `settings`.
    pub fn save_settings(&mut self, settings: &AppSettings) -> (saved: Result<(), String>)
        ensures
            final(self).remembers() == old(self).remembers(),
            final(self).calls() == old(self).calls().push(
                PortCall::Save { settings: settings@, saved: done_view(saved) },
            ),
    {
        let saved = self.settings_store.save(settings);
        proof {
            self.calls@ = self.calls@.push(
                PortCall::Save { settings: settings@, saved: done_view(saved) },
            );
        }
        saved
    }

    /// Asks the recorder to start.
    pub fn start_recorder(&mut self) -> (started: Result<(), String>)
        ensures
            final(self).remembers() == old(self).remembers(),
            final(self).calls() == old(self).calls().push(
                PortCall::StartRecorder { started: done_view(started) },
            ),
    {
        let started = self.recorder.start();
        proof {
            self.calls@ = self.calls@.push(PortCall::StartRecorder { started: done_view(started) });
        }
        started
    }

    /// Asks the recorder to stop and hand over the recording.
    pub fn stop_recorder(&mut self) -> (recorded: Result<Vec<u8>, String>)
        ensures
            final(self).remembers() == old(self).remembers(),
            final(self).calls() == old(self).calls().push(
                PortCall::StopRecorder { recorded: recorded_view(recorded) },
            ),
    {
        let recorded = self.recorder.stop();
        proof {
            self.calls@ = self.calls@.push(
                PortCall::StopRecorder { recorded: recorded_view(recorded) },
            );
        }
        recorded
    }

    /// Asks the transcriber for the transcript of `request`.
    pub fn transcribe(&mut self, request: TranscriptionRequest) -> (answer: Result<String, String>)
        ensures
            final(self).remembers() == old(self).remembers(),
            final(self).calls() == old(self).calls().push(
                PortCall::Transcribe {
                    settings: request.settings@,
                    audio: request.audio@,
                    prompt: request.prompt.deep_view(),
                    answer: result_text(answer),
                },
            ),
    {
        let TranscriptionRequest { settings, audio, prompt } = request;
        let ghost sent_audio = audio@;
        let answer = self.transcriber.transcribe(&settings, audio, prompt_text(&prompt));
        proof {
            self.calls@ = self.calls@.push(
                PortCall::Transcribe {
                    settings: settings@,
                    audio: sent_audio,
                    prompt: prompt.deep_view(),
                    answer: result_text(answer),
                },
            );
        }
        answer
    }

    /// Asks the history, if one is attached, to remember `text` among
    /// `max_items` transcripts, and hands back what it answered.
    pub fn remember(&mut self, text: &str, max_items: usize) -> (remembered: Option<
        Result<(), String>,
    >)
        ensures
            final(self).remembers() == old(self).remembers(),
            remembered is Some <==> old(self).remembers(),
            final(self).calls() == match remembered {
                Some(answer) => old(self).calls().push(
                    PortCall::Remember {
                        text: text@,
                        max_items: max_items as nat,
                        remembered: done_view(answer),
                    },
                ),
                None => old(self).calls(),
            },
    {
        match &self.history {
            Some(history) => {
                let answer = history.append(text, max_items);
                proof {
                    self.calls@ = self.calls@.push(
                        PortCall::Remember {
                            text: text@,
                            max_items: max_items as nat,
                            remembered: done_view(answer),
                        },
                    );
                }
                Some(answer)
            },
            None => None,
        }
    }

    /// Asks the paster to paste `text`.
    pub fn paste(&mut self, text: &str) -> (pasted: Result<(), String>)
        ensures
            final(self).remembers() == old(self).remembers(),
            final(self).calls() == old(self).calls().push(
                PortCall::Paste { text: text@, pasted: done_view(pasted) },
            ),
    {
        let pasted = self.paster.paste(text);
        proof {
            self.calls@ = self.calls@.push(PortCall::Paste { text: text@, pasted: done_view(pasted) });
        }
        pasted
    }

    /// Asks the paster to leave `text` on the clipboard.
    pub fn copy(&mut self, text: &str) -> (copied: Result<(), String>)
        ensures
            final(self).remembers() == old(self).remembers(),
            final(self).calls() == old(self).calls().push(
                PortCall::Copy { text: text@, copied: done_view(copied) },
            ),
    {
        let copied = self.paster.copy(text);
        proof {
            self.calls@ = self.calls@.push(PortCall::Copy { text: text@, copied: done_view(copied) });
        }
        copied
    }

    /// Hands `update` to the observer, now.
    pub fn tell<F: FnMut(DictationUpdate)>(&mut self, on_update: &mut F, update: DictationUpdate)
        requires
            accepts_updates(*old(on_update)),
        ensures
            accepts_updates(*final(on_update)),
            final(self).remembers() == old(self).remembers(),
            final(self).calls() == old(self).calls().push(PortCall::Tell { update: update@ }),
    {
        let ghost told = update@;
        on_update(update);
        proof {
            self.calls@ = self.calls@.push(PortCall::Tell { update: told });
        }
    }
}

} // verus!
