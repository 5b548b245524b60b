//! The session state machine: the one place that decides whether a recording
//! may begin, what happens to it afterwards, and what observers are told.

use crate::domain::collaborators::{accepts_updates, done_view, Collaborators, PortCall};
use crate::domain::ports::{HistorySink, Paster, Recorder, SettingsStore, Transcriber};
use crate::domain::types::{
    bare_update, done_update, error_update, DictationState, DictationUpdate, UpdateView,
    VocabularyEntry,
};
use crate::domain::vocabulary::{
    apply_vocabulary_replacements, build_vocabulary_prompt, prompt_of, rewritten,
};
use crate::settings::{AppSettings, SettingsView};
use crate::text::result_text;
use vstd::prelude::*;

pub use crate::domain::collaborators::{prompt_text, TranscriptionRequest};

verus! {

/// How many transcripts the history keeps.
pub const HISTORY_LIMIT: usize = 50;

/// What a rejected `start_recording` answers.
pub open spec fn busy_message() -> Seq<char> {
    "Busy"@
}

/// What a rejected `stop_and_process` answers.
pub open spec fn not_recording_message() -> Seq<char> {
    "Not recording"@
}

// ---------------------------------------------------------------------------
// What a session does towards the outside, step by step
// ---------------------------------------------------------------------------
/// The record's entry for an update handed to an observer.
pub open spec fn told(update: UpdateView) -> PortCall {
    PortCall::Tell { update }
}

/// Whether `after` is `before` with further entries behind it.
pub open spec fn extends(before: Seq<PortCall>, after: Seq<PortCall>) -> bool {
    before.len() <= after.len() && after.take(before.len() as int) == before
}

/// The entries that `after` has behind `before`.
pub open spec fn made_since(before: Seq<PortCall>, after: Seq<PortCall>) -> Seq<PortCall> {
    after.skip(before.len() as int)
}

/// The updates among the entries of a record, in order.
pub open spec fn updates_in(calls: Seq<PortCall>) -> Seq<UpdateView>
    decreases calls.len(),
{
    if calls.len() == 0 {
        Seq::empty()
    } else {
        match calls.last() {
            PortCall::Tell { update } => updates_in(calls.drop_last()).push(update),
            _ => updates_in(calls.drop_last()),
        }
    }
}

/// What an accepted `start_recording` does, in order: observers are told
/// `Recording`, then the recorder is asked to start; if it fails, observers
/// are told `Error` with its reason.
pub open spec fn start_events(started: Result<(), Seq<char>>) -> Seq<PortCall> {
    let begun = seq![
        told(bare_update(DictationState::Recording)),
        PortCall::StartRecorder { started },
    ];
    match started {
        Ok(_) => begun,
        Err(reason) => begun.push(told(error_update(reason))),
    }
}

/// What an accepted `begin_processing` does, in order: observers are told
/// `Transcribing`, then the recorder is asked to stop; if it fails,
/// observers are told `Error` with its reason.
pub open spec fn stop_events(recorded: Result<Seq<u8>, Seq<char>>) -> Seq<PortCall> {
    let begun = seq![
        told(bare_update(DictationState::Transcribing)),
        PortCall::StopRecorder { recorded },
    ];
    match recorded {
        Ok(_) => begun,
        Err(reason) => begun.push(told(error_update(reason))),
    }
}

/// The text a run delivers for the transcriber's raw answer.
pub open spec fn delivered_text(raw: Seq<char>, settings: SettingsView) -> Seq<char> {
    rewritten(raw, settings.vocabulary)
}

/// Whether `made` is what follows the paster's answer `pasted` to the
/// request to paste `text`. After a failure observers are told `Error` with
/// the paster's reason, and nothing else happens. After a success the
/// paster is asked to copy `text` if `copy_too`, whatever it answers to
/// that being ignored, and then observers are told `Done` with `text`.
pub open spec fn settled(
    made: Seq<PortCall>,
    text: Seq<char>,
    pasted: Result<(), Seq<char>>,
    copy_too: bool,
) -> bool {
    match pasted {
        Err(reason) => made == seq![told(error_update(reason))],
        Ok(_) => if copy_too {
            &&& made.len() == 2
            &&& made[0] matches PortCall::Copy { text: copied_text, .. }
            &&& copied_text == text
            &&& made[1] == told(done_update(text))
        } else {
            made == seq![told(done_update(text))]
        },
    }
}

/// Whether `made` is what the delivery of `text` does, in order, and
/// `outcome` what it answers. With a history attached, the history is asked
/// first to remember `text` among [`HISTORY_LIMIT`] transcripts, and
/// whatever it answers is ignored. Then observers are told `Pasting`, and
/// after that the paster is asked to paste `text`. What follows its answer
/// is as [`settled`] says; the answer of the delivery is `text` after a
/// successful paste, and the paster's reason after a failed one.
pub open spec fn delivery(
    made: Seq<PortCall>,
    text: Seq<char>,
    remembers: bool,
    copy_too: bool,
    outcome: Result<Seq<char>, Seq<char>>,
) -> bool {
    let at: int = if remembers {
        1
    } else {
        0
    };
    &&& remembers ==> made.len() >= 1 && (made[0] matches PortCall::Remember {
        text: remembered,
        max_items,
        ..
    } && remembered == text && max_items == HISTORY_LIMIT)
    &&& made.len() >= at + 3
    &&& made[at] == told(bare_update(DictationState::Pasting))
    &&& made[at + 1] matches PortCall::Paste { text: pasted_text, pasted }
    &&& pasted_text == text
    &&& settled(made.skip(at + 2), text, pasted, copy_too)
    &&& match pasted {
        Ok(_) => outcome == Ok::<Seq<char>, Seq<char>>(text),
        Err(reason) => outcome == Err::<Seq<char>, Seq<char>>(reason),
    }
}

/// Whether `made` is what a run that began in `Recording` with `settings`
/// did, in order, and `outcome` what it answered. Observers are told
/// `Transcribing`, then the recorder is asked to stop. If it fails,
/// observers are told `Error` with its reason, which is the answer. Otherwise
/// the transcriber is asked for a transcript of exactly that recording, with
/// the settings as they were and the hint of their vocabulary. If it fails,
/// observers are told `Error` with its reason, which is the answer.
/// Otherwise its answer, rewritten with the vocabulary, is delivered as
/// [`delivery`] says.
pub open spec fn run_report(
    made: Seq<PortCall>,
    settings: SettingsView,
    remembers: bool,
    outcome: Result<Seq<char>, Seq<char>>,
) -> bool {
    &&& made.len() >= 3
    &&& made[0] == told(bare_update(DictationState::Transcribing))
    &&& made[1] matches PortCall::StopRecorder { recorded }
    &&& match recorded {
        Err(reason) => {
            &&& made.len() == 3
            &&& made[2] == told(error_update(reason))
            &&& outcome == Err::<Seq<char>, Seq<char>>(reason)
        },
        Ok(audio) => {
            &&& made.len() >= 4
            &&& made[2] matches PortCall::Transcribe { settings: sent, audio: sent_audio, prompt, answer }
            &&& sent == settings
            &&& sent_audio == audio
            &&& prompt == prompt_of(settings.vocabulary)
            &&& match answer {
                Err(reason) => {
                    &&& made.len() == 4
                    &&& made[3] == told(error_update(reason))
                    &&& outcome == Err::<Seq<char>, Seq<char>>(reason)
                },
                Ok(raw) => delivery(
                    made.skip(3),
                    delivered_text(raw, settings),
                    remembers,
                    settings.copy_to_clipboard_on_success,
                    outcome,
                ),
            }
        },
    }
}

// ---------------------------------------------------------------------------
// What follows the paster's answer
// ---------------------------------------------------------------------------
/// What a run does once the paster has answered: what it answers itself,
/// whether the text is to be copied too, and what observers are told last.
pub struct PasteVerdict {
    pub outcome: Result<String, String>,
    pub copy: bool,
    pub update: DictationUpdate,
}

/// Decides what follows the paster's answer to the request to paste `text`.
/// After a success the run answers `text`, the text is copied too if
/// `copy_too`, and observers are told `Done` with `text`. After a failure
/// the run answers the paster's reason, nothing is copied, and observers are
/// told `Error` with that reason.
pub fn settle_paste(text: String, pasted: Result<(), String>, copy_too: bool) -> (verdict:
    PasteVerdict)
    ensures
        match pasted {
            Ok(_) => {
                &&& result_text(verdict.outcome) == Ok::<Seq<char>, Seq<char>>(text@)
                &&& verdict.copy == copy_too
                &&& verdict.update@ == done_update(text@)
            },
            Err(reason) => {
                &&& result_text(verdict.outcome) == Err::<Seq<char>, Seq<char>>(reason@)
                &&& !verdict.copy
                &&& verdict.update@ == error_update(reason@)
            },
        },
{
    match pasted {
        Ok(()) => {
            let update = DictationUpdate::new(DictationState::Done).text(text.as_str());
            PasteVerdict { outcome: Ok(text), copy: copy_too, update }
        },
        Err(reason) => {
            let update = DictationUpdate::new(DictationState::Error).message(reason.as_str());
            PasteVerdict { outcome: Err(reason), copy: false, update }
        },
    }
}

// ---------------------------------------------------------------------------
// The session
// ---------------------------------------------------------------------------
/// The session state machine with its collaborators.
pub struct DictationSessionManager {
    state: DictationState,
    settings: AppSettings,
    collaborators: Collaborators,
}

impl DictationSessionManager {
    /// The state the session is in.
    pub closed spec fn state(&self) -> DictationState {
        self.state
    }

    /// The settings the session currently works with.
    pub closed spec fn settings(&self) -> SettingsView {
        self.settings@
    }

    /// Whether a history is attached.
    pub closed spec fn remembers(&self) -> bool {
        self.collaborators.remembers()
    }

    /// Everything the session has asked of a collaborator or told an
    /// observer, oldest first.
    pub closed spec fn calls(&self) -> Seq<PortCall> {
        self.collaborators.calls()
    }

    /// An idle session over the given collaborators, working with
    /// `initial_settings`. No collaborator has been asked anything, and
    /// transcripts are not remembered until a history is attached.
    pub fn with_settings(
        recorder: Box<dyn Recorder>,
        settings_store: Box<dyn SettingsStore>,
        transcriber: Box<dyn Transcriber>,
        paster: Box<dyn Paster>,
        initial_settings: AppSettings,
    ) -> (manager: Self)
        ensures
            manager.state() == DictationState::Idle,
            manager.settings() == initial_settings@,
            !manager.remembers(),
            manager.calls() == Seq::<PortCall>::empty(),
    {
        DictationSessionManager {
            state: DictationState::Idle,
            settings: initial_settings,
            collaborators: Collaborators::new(recorder, settings_store, transcriber, paster),
        }
    }

    /// An idle session over the given collaborators, working with the
    /// settings the store holds: the store is asked for them, and nothing
    /// else is asked of anyone. Transcripts are not remembered until a
    /// history is attached.
    pub fn new(
        recorder: Box<dyn Recorder>,
        settings_store: Box<dyn SettingsStore>,
        transcriber: Box<dyn Transcriber>,
        paster: Box<dyn Paster>,
    ) -> (manager: Self)
        ensures
            manager.state() == DictationState::Idle,
            !manager.remembers(),
            manager.calls() == seq![PortCall::Load { loaded: manager.settings() }],
    {
        let mut collaborators = Collaborators::new(recorder, settings_store, transcriber, paster);
        let initial_settings = collaborators.load_settings();
        DictationSessionManager {
            state: DictationState::Idle,
            settings: initial_settings,
            collaborators,
        }
    }

    /// The same session, remembering finished transcripts in `history`.
    pub fn with_history(self, history: Box<dyn HistorySink>) -> (manager: Self)
        ensures
            manager.state() == self.state(),
            manager.settings() == self.settings(),
            manager.calls() == self.calls(),
            manager.remembers(),
    {
        DictationSessionManager {
            state: self.state,
            settings: self.settings,
            collaborators: self.collaborators.with_history(history),
        }
    }

    /// Reads the state the session is in.
    pub fn current_state(&self) -> (state: DictationState)
        ensures
            state == self.state(),
    {
        self.state
    }

    /// A copy of the settings the session works with.
    pub fn get_settings(&self) -> (outcome: Result<AppSettings, String>)
        ensures
            outcome matches Ok(settings) && settings@ == self.settings(),
    {
        Ok(self.settings.clone())
    }

    // -----------------------------------------------------------------------
    // Settings
    // -----------------------------------------------------------------------
    /// Asks the store to store `settings` and, once stored, works with them.
    /// If the store refuses, its reason is returned and the session keeps
    /// its settings.
    pub fn save_settings(&mut self, settings: AppSettings) -> (outcome: Result<(), String>)
        ensures
            final(self).state() == old(self).state(),
            final(self).remembers() == old(self).remembers(),
            final(self).calls() == old(self).calls().push(
                PortCall::Save { settings: settings@, saved: done_view(outcome) },
            ),
            outcome is Ok ==> final(self).settings() == settings@,
            outcome is Err ==> final(self).settings() == old(self).settings(),
    {
        match self.collaborators.save_settings(&settings) {
            Ok(()) => {
                self.settings = settings;
                Ok(())
            },
            Err(reason) => Err(reason),
        }
    }

    /// Asks the store to store the current settings with `vocabulary` in
    /// place of the old one and, once stored, works with them. If the store
    /// refuses, its reason is returned and the session keeps its settings.
    pub fn save_vocabulary(&mut self, vocabulary: Vec<VocabularyEntry>) -> (outcome: Result<
        (),
        String,
    >)
        ensures
            final(self).state() == old(self).state(),
            final(self).remembers() == old(self).remembers(),
            final(self).calls() == old(self).calls().push(
                PortCall::Save {
                    settings: (SettingsView {
                        vocabulary: vocabulary.deep_view(),
                        ..old(self).settings()
                    }),
                    saved: done_view(outcome),
                },
            ),
            outcome is Ok ==> final(self).settings() == (SettingsView {
                vocabulary: vocabulary.deep_view(),
                ..old(self).settings()
            }),
            outcome is Err ==> final(self).settings() == old(self).settings(),
    {
        let mut next_settings = self.settings.clone();
        next_settings.vocabulary = vocabulary;
        match self.collaborators.save_settings(&next_settings) {
            Ok(()) => {
                self.settings = next_settings;
                Ok(())
            },
            Err(reason) => Err(reason),
        }
    }

    // -----------------------------------------------------------------------
    // Starting
    // -----------------------------------------------------------------------
    /// Gives a run up: the session is idle again, observers are told the
    /// reason, and the reason is handed back.
    fn abandon<F: FnMut(DictationUpdate)>(&mut self, reason: String, on_update: &mut F) -> (returned:
        String)
        requires
            accepts_updates(*old(on_update)),
        ensures
            accepts_updates(*final(on_update)),
            final(self).settings() == old(self).settings(),
            final(self).remembers() == old(self).remembers(),
            final(self).state() == DictationState::Idle,
            returned@ == reason@,
            final(self).calls() == old(self).calls().push(told(error_update(reason@))),
    {
        self.state = DictationState::Idle;
        self.collaborators.tell(
            on_update,
            DictationUpdate::new(DictationState::Error).message(reason.as_str()),
        );
        reason
    }

    /// Begins a recording. A session that is not idle answers `Busy`:
    /// nothing changes, nobody is told, and no collaborator is asked
    /// anything. An idle session becomes `Recording` and does what
    /// [`start_events`] says: observers are told, then the recorder is asked
    /// to start. If it does, that is all; if it fails, the session is idle
    /// again, observers are told the reason, and the reason is returned.
    pub fn start_recording<F: FnMut(DictationUpdate)>(&mut self, mut on_update: F) -> (outcome:
        Result<(), String>)
        requires
            accepts_updates(on_update),
        ensures
            final(self).settings() == old(self).settings(),
            final(self).remembers() == old(self).remembers(),
            old(self).state() != DictationState::Idle ==> {
                &&& outcome matches Err(reason) && reason@ == busy_message()
                &&& final(self).state() == old(self).state()
                &&& final(self).calls() == old(self).calls()
            },
            old(self).state() == DictationState::Idle ==> {
                &&& final(self).calls() == old(self).calls() + start_events(done_view(outcome))
                &&& final(self).state() == if outcome is Ok {
                    DictationState::Recording
                } else {
                    DictationState::Idle
                }
            },
    {
        if self.state != DictationState::Idle {
            return Err(String::from_str("Busy"));
        }
        self.state = DictationState::Recording;
        self.collaborators.tell(&mut on_update, DictationUpdate::new(DictationState::Recording));
        match self.collaborators.start_recorder() {
            Ok(()) => Ok(()),
            Err(reason) => Err(self.abandon(reason, &mut on_update)),
        }
    }

    // -----------------------------------------------------------------------
    // Stopping and processing
    // -----------------------------------------------------------------------
    /// Turns what the recorder handed over into the request for the
    /// transcriber: the audio as it came, the settings as they are now, and
    /// the hint of their vocabulary. A recorder failure is passed on.
    pub fn prepare_request(&self, recorded: Result<Vec<u8>, String>) -> (outcome: Result<
        TranscriptionRequest,
        String,
    >)
        ensures
            match recorded {
                Ok(audio) => {
                    &&& outcome matches Ok(request)
                    &&& request.audio@ == audio@
                    &&& request.settings@ == self.settings()
                    &&& request.prompt.deep_view() == prompt_of(self.settings().vocabulary)
                },
                Err(reason) => outcome matches Err(returned) && returned@ == reason@,
            },
    {
        match recorded {
            Ok(audio) => {
                let settings = self.settings.clone();
                let prompt = build_vocabulary_prompt(settings.vocabulary.as_slice());
                Ok(TranscriptionRequest { settings, audio, prompt })
            },
            Err(reason) => Err(reason),
        }
    }

    /// Takes a recording session into processing. A session that is not
    /// recording answers `Not recording`: nothing changes, nobody is told,
    /// and no collaborator is asked anything. Otherwise the session becomes
    /// `Transcribing` and does what [`stop_events`] says: observers are
    /// told, then the recorder is asked to stop. If it hands over a
    /// recording, the request for the transcriber is returned, made of that
    /// recording, the settings as they are, and the hint of their
    /// vocabulary, and the session waits in `Transcribing` for
    /// [`Self::complete_processing`]. If it fails, the run ends here: the
    /// session is idle, observers are told the reason, and it is returned.
    pub fn begin_processing<F: FnMut(DictationUpdate)>(&mut self, on_update: &mut F) -> (outcome:
        Result<TranscriptionRequest, String>)
        requires
            accepts_updates(*old(on_update)),
        ensures
            accepts_updates(*final(on_update)),
            final(self).settings() == old(self).settings(),
            final(self).remembers() == old(self).remembers(),
            old(self).state() != DictationState::Recording ==> {
                &&& outcome matches Err(reason) && reason@ == not_recording_message()
                &&& final(self).state() == old(self).state()
                &&& final(self).calls() == old(self).calls()
            },
            old(self).state() == DictationState::Recording ==> match outcome {
                Ok(request) => {
                    &&& final(self).state() == DictationState::Transcribing
                    &&& final(self).calls() == old(self).calls() + stop_events(Ok(request.audio@))
                    &&& request.settings@ == old(self).settings()
                    &&& request.prompt.deep_view() == prompt_of(old(self).settings().vocabulary)
                },
                Err(reason) => {
                    &&& final(self).state() == DictationState::Idle
                    &&& final(self).calls() == old(self).calls() + stop_events(Err(reason@))
                },
            },
    {
        if self.state != DictationState::Recording {
            return Err(String::from_str("Not recording"));
        }
        self.state = DictationState::Transcribing;
        self.collaborators.tell(on_update, DictationUpdate::new(DictationState::Transcribing));
        let recorded = self.collaborators.stop_recorder();
        match self.prepare_request(recorded) {
            Ok(request) => Ok(request),
            Err(reason) => Err(self.abandon(reason, on_update)),
        }
    }

    /// Delivers the transcriber's raw answer as [`delivery`] says: rewrites
    /// it with the vocabulary of `settings`, asks the history to remember
    /// it, tells observers that pasting begins, asks the paster to paste it,
    /// and does what [`settle_paste`] decides on the paster's answer. The
    /// session is idle afterwards.
    fn deliver<F: FnMut(DictationUpdate)>(
        &mut self,
        settings: &AppSettings,
        raw: String,
        on_update: &mut F,
    ) -> (outcome: Result<String, String>)
        requires
            accepts_updates(*old(on_update)),
        ensures
            accepts_updates(*final(on_update)),
            final(self).settings() == old(self).settings(),
            final(self).remembers() == old(self).remembers(),
            final(self).state() == DictationState::Idle,
            extends(old(self).calls(), final(self).calls()),
            delivery(
                made_since(old(self).calls(), final(self).calls()),
                delivered_text(raw@, settings@),
                old(self).remembers(),
                settings@.copy_to_clipboard_on_success,
                result_text(outcome),
            ),
    {
        let ghost before = self.calls();
        let text = apply_vocabulary_replacements(raw.as_str(), settings.vocabulary.as_slice());
        // The transcript is delivered whether or not it could be remembered.
        let _ = self.collaborators.remember(text.as_str(), HISTORY_LIMIT);
        let ghost remembered = self.calls();
        self.state = DictationState::Pasting;
        self.collaborators.tell(on_update, DictationUpdate::new(DictationState::Pasting));
        let pasted = self.collaborators.paste(text.as_str());
        let ghost asked = self.calls();
        let ghost wanted = text@;
        let PasteVerdict { outcome, copy, update } = settle_paste(
            text,
            pasted,
            settings.copy_to_clipboard_on_success,
        );
        match outcome {
            Ok(text) => {
                if copy {
                    // A transcript that could not be left on the clipboard has still been delivered.
                    let _ = self.collaborators.copy(text.as_str());
                }
                self.state = DictationState::Done;
                self.collaborators.tell(on_update, update);
                self.state = DictationState::Idle;
                proof {
                    let now = self.calls();
                    let made = made_since(before, now);
                    let at = remembered.len() - before.len();
                    assert(now.take(before.len() as int) =~= before);
                    assert(made[at] == asked[remembered.len() as int]);
                    assert(made[at + 1] == asked.last());
                    if copy {
                        assert(made.skip(at + 2)[0] == now[asked.len() as int]);
                        assert(made.skip(at + 2)[1] == now.last());
                    } else {
                        assert(made.skip(at + 2) =~= seq![told(done_update(wanted))]);
                    }
                }
                Ok(text)
            },
            Err(reason) => {
                self.state = DictationState::Idle;
                self.collaborators.tell(on_update, update);
                proof {
                    let now = self.calls();
                    let made = made_since(before, now);
                    let at = remembered.len() - before.len();
                    assert(now.take(before.len() as int) =~= before);
                    assert(made[at] == asked[remembered.len() as int]);
                    assert(made[at + 1] == asked.last());
                    assert(made.skip(at + 2) =~= seq![told(error_update(reason@))]);
                }
                Err(reason)
            },
        }
    }

    /// Finishes a run once the transcriber has answered. `settings` are those
    /// of the request. A session that is not waiting in `Transcribing`
    /// answers `Not recording`: nothing changes, nobody is told, and no
    /// collaborator is asked anything. Otherwise a transcriber failure ends
    /// the run: observers are told the reason and it is returned. A
    /// transcript is rewritten with the vocabulary and delivered as
    /// [`delivery`] says. Whatever happened, the session is idle afterwards.
    pub fn complete_processing<F: FnMut(DictationUpdate)>(
        &mut self,
        settings: &AppSettings,
        transcribed: Result<String, String>,
        on_update: &mut F,
    ) -> (outcome: Result<String, String>)
        requires
            accepts_updates(*old(on_update)),
        ensures
            accepts_updates(*final(on_update)),
            final(self).settings() == old(self).settings(),
            final(self).remembers() == old(self).remembers(),
            old(self).state() != DictationState::Transcribing ==> {
                &&& outcome matches Err(reason) && reason@ == not_recording_message()
                &&& final(self).state() == old(self).state()
                &&& final(self).calls() == old(self).calls()
            },
            old(self).state() == DictationState::Transcribing ==> {
                &&& final(self).state() == DictationState::Idle
                &&& match transcribed {
                    Err(reason) => {
                        &&& outcome matches Err(returned) && returned@ == reason@
                        &&& final(self).calls() == old(self).calls().push(
                            told(error_update(reason@)),
                        )
                    },
                    Ok(raw) => {
                        &&& extends(old(self).calls(), final(self).calls())
                        &&& delivery(
                            made_since(old(self).calls(), final(self).calls()),
                            delivered_text(raw@, settings@),
                            old(self).remembers(),
                            settings@.copy_to_clipboard_on_success,
                            result_text(outcome),
                        )
                    },
                }
            },
    {
        if self.state != DictationState::Transcribing {
            return Err(String::from_str("Not recording"));
        }
        match transcribed {
            Ok(raw) => self.deliver(settings, raw, on_update),
            Err(reason) => Err(self.abandon(reason, on_update)),
        }
    }

    /// Ends a recording and carries it through transcription to delivery. A
    /// session that is not recording answers `Not recording`: nothing
    /// changes, nobody is told, and no collaborator is asked anything.
    /// Otherwise the steps run strictly one after the other, as
    /// [`run_report`] says: tell `Transcribing`, stop the recorder, build
    /// the hint, transcribe, rewrite with the vocabulary, remember, tell
    /// `Pasting`, paste, copy if wanted, tell `Done` with the text. The first
    /// step that fails ends the run: observers are told `Error` with the
    /// reason and it is returned. Whatever happened, the session is idle
    /// afterwards.
    pub fn stop_and_process<F: FnMut(DictationUpdate)>(&mut self, mut on_update: F) -> (outcome:
        Result<String, String>)
        requires
            accepts_updates(on_update),
        ensures
            final(self).settings() == old(self).settings(),
            final(self).remembers() == old(self).remembers(),
            old(self).state() != DictationState::Recording ==> {
                &&& outcome matches Err(reason) && reason@ == not_recording_message()
                &&& final(self).state() == old(self).state()
                &&& final(self).calls() == old(self).calls()
            },
            old(self).state() == DictationState::Recording ==> {
                &&& final(self).state() == DictationState::Idle
                &&& extends(old(self).calls(), final(self).calls())
                &&& run_report(
                    made_since(old(self).calls(), final(self).calls()),
                    old(self).settings(),
                    old(self).remembers(),
                    result_text(outcome),
                )
            },
    {
        let ghost before = self.calls();
        let request = match self.begin_processing(&mut on_update) {
            Ok(request) => request,
            Err(reason) => {
                proof {
                    if old(self).state() == DictationState::Recording {
                        assert(self.calls().take(before.len() as int) =~= before);
                        assert(made_since(before, self.calls()) =~= stop_events(Err(reason@)));
                    }
                }
                return Err(reason);
            },
        };
        let ghost stopped = self.calls();
        let snapshot = request.settings.clone();
        let transcribed = self.collaborators.transcribe(request);
        let ghost asked = self.calls();
        let ghost answer = result_text(transcribed);
        let outcome = self.complete_processing(&snapshot, transcribed, &mut on_update);
        proof {
            let now = self.calls();
            let made = made_since(before, now);
            assert(extends(asked, now)) by {
                if answer is Err {
                    assert(now.take(asked.len() as int) =~= asked);
                }
            }
            assert(now.take(before.len() as int) =~= before) by {
                assert forall|k: int| 0 <= k < before.len() implies now[k] == before[k] by {
                    assert(now.take(asked.len() as int)[k] == now[k]);
                }
            }
            assert(made[0] == asked[before.len() as int]) by {
                assert(now.take(asked.len() as int)[before.len() as int] == now[before.len() as int]);
            }
            assert(made[1] == asked[before.len() as int + 1]) by {
                assert(now.take(asked.len() as int)[before.len() as int + 1] == now[before.len() as int + 1]);
            }
            assert(made[2] == asked.last()) by {
                assert(now.take(asked.len() as int)[before.len() as int + 2] == now[before.len() as int + 2]);
            }
            if answer is Ok {
                assert(made.skip(3) =~= made_since(asked, now));
            }
        }
        outcome
    }
}

// ---------------------------------------------------------------------------
// Laws
// ---------------------------------------------------------------------------
/// The updates of two records read one after the other are the updates of
/// the first followed by the updates of the second.
pub proof fn lemma_updates_in_order(first: Seq<PortCall>, second: Seq<PortCall>)
    ensures
        updates_in(first + second) == updates_in(first) + updates_in(second),
    decreases second.len(),
{
    if second.len() == 0 {
        assert(first + second =~= first);
    } else {
        lemma_updates_in_order(first, second.drop_last());
        assert((first + second).drop_last() =~= first + second.drop_last());
    }
}

/// The updates in a record of a few entries, read off one by one.
proof fn lemma_updates_of_last(calls: Seq<PortCall>)
    requires
        calls.len() > 0,
    ensures
        calls.last() is Tell ==> updates_in(calls) == updates_in(calls.drop_last()).push(
            calls.last()->update,
        ),
        !(calls.last() is Tell) ==> updates_in(calls) == updates_in(calls.drop_last()),
{
}

/// An accepted start tells observers `Recording`, and after that `Error`
/// with the recorder's reason if the recorder failed.
pub proof fn lemma_start_updates(started: Result<(), Seq<char>>)
    ensures
        updates_in(start_events(started)) == match started {
            Ok(_) => seq![bare_update(DictationState::Recording)],
            Err(reason) => seq![bare_update(DictationState::Recording), error_update(reason)],
        },
{
    let first = seq![told(bare_update(DictationState::Recording))];
    let second = seq![PortCall::StartRecorder { started }];
    assert(updates_in(first) =~= seq![bare_update(DictationState::Recording)]) by {
        lemma_updates_of_last(first);
        assert(first.drop_last() =~= Seq::<PortCall>::empty());
    }
    assert(updates_in(second) =~= Seq::<UpdateView>::empty()) by {
        lemma_updates_of_last(second);
        assert(second.drop_last() =~= Seq::<PortCall>::empty());
    }
    lemma_updates_in_order(first, second);
    assert(first + second =~= seq![
        told(bare_update(DictationState::Recording)),
        PortCall::StartRecorder { started },
    ]);
    if let Err(reason) = started {
        let third = seq![told(error_update(reason))];
        assert(updates_in(third) =~= seq![error_update(reason)]) by {
            lemma_updates_of_last(third);
            assert(third.drop_last() =~= Seq::<PortCall>::empty());
        }
        lemma_updates_in_order(first + second, third);
        assert(start_events(started) =~= first + second + third);
    }
}

/// What observers are told by a run that began in `Recording`:
/// `Transcribing` first; then `Pasting` if the transcriber answered; and
/// last `Done` with the text that is returned, or `Error` with the reason
/// that is returned. A run that answers with a text told exactly
/// `Transcribing`, `Pasting` and `Done`, in this order.
pub proof fn lemma_run_updates(
    made: Seq<PortCall>,
    settings: SettingsView,
    remembers: bool,
    outcome: Result<Seq<char>, Seq<char>>,
)
    requires
        run_report(made, settings, remembers, outcome),
    ensures
        match outcome {
            Ok(text) => updates_in(made) == seq![
                bare_update(DictationState::Transcribing),
                bare_update(DictationState::Pasting),
                done_update(text),
            ],
            Err(reason) => {
                ||| updates_in(made) == seq![
                    bare_update(DictationState::Transcribing),
                    error_update(reason),
                ]
                ||| updates_in(made) == seq![
                    bare_update(DictationState::Transcribing),
                    bare_update(DictationState::Pasting),
                    error_update(reason),
                ]
            },
        },
{
    let count = made.len() as int;
    lemma_updates_prefix(made, 0);
    if count >= 1 {
        lemma_updates_prefix(made, 1);
    }
    if count >= 2 {
        lemma_updates_prefix(made, 2);
    }
    if count >= 3 {
        lemma_updates_prefix(made, 3);
    }
    if count >= 4 {
        lemma_updates_prefix(made, 4);
    }
    if count >= 5 {
        lemma_updates_prefix(made, 5);
    }
    if count >= 6 {
        lemma_updates_prefix(made, 6);
    }
    if count >= 7 {
        lemma_updates_prefix(made, 7);
    }
    if count >= 8 {
        lemma_updates_prefix(made, 8);
    }
    assert(made.take(count) =~= made);
    if count > 4 {
        // The run got a transcript: what follows is the delivery.
        let delivered = made.skip(3);
        let at: int = if remembers {
            1
        } else {
            0
        };
        let tail = delivered.skip(at + 2);
        assert(delivered[0] == made[3]);
        assert(delivered[at] == made[3 + at]);
        assert(delivered[at + 1] == made[4 + at]);
        assert(tail.len() == count - 5 - at);
        assert(tail[0] == made[5 + at]);
        if tail.len() >= 2 {
            assert(tail[1] == made[6 + at]);
        }
    }
}

/// The updates among the first `upto` entries of a record, built up entry
/// by entry.
proof fn lemma_updates_prefix(made: Seq<PortCall>, upto: int)
    requires
        0 <= upto <= made.len(),
    ensures
        updates_in(made.take(upto)) == if upto == 0 {
            Seq::<UpdateView>::empty()
        } else {
            match made[upto - 1] {
                PortCall::Tell { update } => updates_in(made.take(upto - 1)).push(update),
                _ => updates_in(made.take(upto - 1)),
            }
        },
{
    if upto > 0 {
        assert(made.take(upto).drop_last() =~= made.take(upto - 1));
    }
}

/// A run that answers with a text got that text by rewriting the
/// transcriber's answer with the vocabulary, and asked the paster to paste
/// exactly that text after telling observers `Pasting`.
pub proof fn lemma_successful_run(
    made: Seq<PortCall>,
    settings: SettingsView,
    remembers: bool,
    text: Seq<char>,
)
    requires
        run_report(made, settings, remembers, Ok(text)),
    ensures
        made[2] matches PortCall::Transcribe { answer, .. } && (answer matches Ok(raw) && text
            == rewritten(raw, settings.vocabulary)),
        exists|at: int|
            3 <= at < made.len() - 1 && made[at] == told(bare_update(DictationState::Pasting))
                && #[trigger] pasted_as(made[at + 1], text),
{
    let at: int = if remembers {
        4
    } else {
        3
    };
    assert(made.skip(3)[at - 3] == made[at]);
    assert(made.skip(3)[at - 2] == made[at + 1]);
    assert(pasted_as(made[at + 1], text));
}

/// Whether `call` is a successful request to paste `text`.
pub open spec fn pasted_as(call: PortCall, text: Seq<char>) -> bool {
    call matches PortCall::Paste { text: pasted_text, pasted } && pasted_text == text
        && pasted is Ok
}

/// A run whose transcription fails answers with the transcriber's reason
/// and tells observers `Transcribing`, then `Error` with that reason.
/// Nothing is remembered, pasted or copied.
pub proof fn lemma_failed_transcription_run(
    made: Seq<PortCall>,
    settings: SettingsView,
    remembers: bool,
    outcome: Result<Seq<char>, Seq<char>>,
    reason: Seq<char>,
)
    requires
        run_report(made, settings, remembers, outcome),
        made[2] matches PortCall::Transcribe { answer, .. } && answer == Err::<
            Seq<char>,
            Seq<char>,
        >(reason),
    ensures
        outcome == Err::<Seq<char>, Seq<char>>(reason),
        made.len() == 4,
        made[3] == told(error_update(reason)),
        updates_in(made) == seq![bare_update(DictationState::Transcribing), error_update(reason)],
{
    lemma_run_updates(made, settings, remembers, outcome);
    lemma_updates_prefix(made, 4);
    lemma_updates_prefix(made, 3);
    lemma_updates_prefix(made, 2);
    lemma_updates_prefix(made, 1);
    lemma_updates_prefix(made, 0);
    assert(made.take(4) =~= made);
}

/// A session that starts and then runs to a delivered text has told
/// observers `Recording`, `Transcribing`, `Pasting` and `Done`, in exactly
/// this order, and `Done` carries the delivered text.
pub proof fn lemma_successful_session_updates(
    made: Seq<PortCall>,
    settings: SettingsView,
    remembers: bool,
    text: Seq<char>,
)
    requires
        run_report(made, settings, remembers, Ok(text)),
    ensures
        updates_in(start_events(Ok(())) + made) == seq![
            bare_update(DictationState::Recording),
            bare_update(DictationState::Transcribing),
            bare_update(DictationState::Pasting),
            done_update(text),
        ],
{
    lemma_start_updates(Ok(()));
    lemma_run_updates(made, settings, remembers, Ok(text));
    lemma_updates_in_order(start_events(Ok(())), made);
}

/// A session that starts and whose transcription then fails has told
/// observers `Recording`, `Transcribing` and `Error`, in exactly this order,
/// and `Error` carries the transcriber's reason, which is also returned.
pub proof fn lemma_failed_session_updates(
    made: Seq<PortCall>,
    settings: SettingsView,
    remembers: bool,
    outcome: Result<Seq<char>, Seq<char>>,
    reason: Seq<char>,
)
    requires
        run_report(made, settings, remembers, outcome),
        made[2] matches PortCall::Transcribe { answer, .. } && answer == Err::<
            Seq<char>,
            Seq<char>,
        >(reason),
    ensures
        outcome == Err::<Seq<char>, Seq<char>>(reason),
        updates_in(start_events(Ok(())) + made) == seq![
            bare_update(DictationState::Recording),
            bare_update(DictationState::Transcribing),
            error_update(reason),
        ],
{
    lemma_start_updates(Ok(()));
    lemma_failed_transcription_run(made, settings, remembers, outcome, reason);
    lemma_updates_in_order(start_events(Ok(())), made);
}

} // verus!
