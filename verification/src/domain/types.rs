//! Plain data shared by the session, its observers and the vocabulary rules.

use vstd::prelude::*;

verus! {

/// Where a dictation session currently stands.
#[derive(Clone, Copy, Debug, PartialEq, Eq, Structural)]
pub enum DictationState {
    Idle,
    Recording,
    Transcribing,
    Pasting,
    Done,
    Error,
}

/// The mathematical value of a [`DictationUpdate`].
pub struct UpdateView {
    pub state: DictationState,
    pub message: Option<Seq<char>>,
    pub text: Option<Seq<char>>,
}

/// One notification handed to an observer when the session changes state.
#[derive(Debug)]
pub struct DictationUpdate {
    pub state: DictationState,
    pub message: Option<String>,
    pub text: Option<String>,
}

impl View for DictationUpdate {
    type V = UpdateView;

    open spec fn view(&self) -> UpdateView {
        UpdateView {
            state: self.state,
            message: match self.message {
                Some(m) => Some(m@),
                None => None,
            },
            text: match self.text {
                Some(t) => Some(t@),
                None => None,
            },
        }
    }
}

/// An update that carries nothing but the state.
pub open spec fn bare_update(state: DictationState) -> UpdateView {
    UpdateView { state, message: None, text: None }
}

/// The update that reports a failure with its message.
pub open spec fn error_update(message: Seq<char>) -> UpdateView {
    UpdateView { state: DictationState::Error, message: Some(message), text: None }
}

/// The update that reports the delivered text.
pub open spec fn done_update(text: Seq<char>) -> UpdateView {
    UpdateView { state: DictationState::Done, message: None, text: Some(text) }
}

impl DictationUpdate {
    /// An update for `state` without message or text.
    pub fn new(state: DictationState) -> (update: DictationUpdate)
        ensures
            update@ == bare_update(state),
    {
        DictationUpdate { state, message: None, text: None }
    }

    /// The same update with its message set.
    pub fn message(self, message: &str) -> (update: DictationUpdate)
        ensures
            update@ == (UpdateView { message: Some(message@), ..self@ }),
    {
        DictationUpdate {
            state: self.state,
            message: Some(message.to_owned()),
            text: self.text,
        }
    }

    /// The same update with its text set.
    pub fn text(self, text: &str) -> (update: DictationUpdate)
        ensures
            update@ == (UpdateView { text: Some(text@), ..self@ }),
    {
        DictationUpdate { state: self.state, message: self.message, text: Some(text.to_owned()) }
    }
}

impl Clone for DictationUpdate {
    fn clone(&self) -> (copy: DictationUpdate)
        ensures
            copy@ == self@,
    {
        DictationUpdate {
            state: self.state,
            message: match &self.message {
                Some(m) => Some(m.clone()),
                None => None,
            },
            text: match &self.text {
                Some(t) => Some(t.clone()),
                None => None,
            },
        }
    }
}

/// The mathematical value of a [`VocabularyEntry`].
pub struct EntryView {
    pub id: Seq<char>,
    pub word: Seq<char>,
    pub replacements: Seq<Seq<char>>,
    pub enabled: bool,
}

/// A canonical word together with the misheard forms it replaces.
#[derive(Debug)]
pub struct VocabularyEntry {
    pub id: String,
    pub word: String,
    pub replacements: Vec<String>,
    pub enabled: bool,
}

impl View for VocabularyEntry {
    type V = EntryView;

    open spec fn view(&self) -> EntryView {
        EntryView {
            id: self.id@,
            word: self.word@,
            replacements: self.replacements.deep_view(),
            enabled: self.enabled,
        }
    }
}

impl DeepView for VocabularyEntry {
    type V = EntryView;

    open spec fn deep_view(&self) -> EntryView {
        self@
    }
}

/// Copies a list of strings.
pub fn clone_strings(items: &Vec<String>) -> (copy: Vec<String>)
    ensures
        copy.deep_view() == items.deep_view(),
{
    let mut copy: Vec<String> = Vec::new();
    let mut i: usize = 0;
    while i < items.len()
        invariant
            0 <= i <= items.len(),
            copy.len() == i,
            forall|k: int| 0 <= k < i ==> copy[k]@ == items[k]@,
        decreases items.len() - i,
    {
        copy.push(items[i].clone());
        i += 1;
    }
    copy
}

impl Clone for VocabularyEntry {
    fn clone(&self) -> (copy: VocabularyEntry)
        ensures
            copy@ == self@,
    {
        VocabularyEntry {
            id: self.id.clone(),
            word: self.word.clone(),
            replacements: clone_strings(&self.replacements),
            enabled: self.enabled,
        }
    }
}

/// Copies a vocabulary.
pub fn clone_vocabulary(entries: &Vec<VocabularyEntry>) -> (copy: Vec<VocabularyEntry>)
    ensures
        copy.deep_view() == entries.deep_view(),
{
    let mut copy: Vec<VocabularyEntry> = Vec::new();
    let mut i: usize = 0;
    while i < entries.len()
        invariant
            0 <= i <= entries.len(),
            copy.len() == i,
            forall|k: int| 0 <= k < i ==> copy[k]@ == entries[k]@,
        decreases entries.len() - i,
    {
        copy.push(entries[i].clone());
        i += 1;
    }
    copy
}

/// The mathematical value of a [`Mode`].
pub struct ModeView {
    pub id: Seq<char>,
    pub name: Seq<char>,
    pub system_prompt: Seq<char>,
    pub model: Seq<char>,
}

/// A named way of rewriting a transcript with a language model.
#[derive(Debug)]
pub struct Mode {
    pub id: String,
    pub name: String,
    pub system_prompt: String,
    pub model: String,
}

impl View for Mode {
    type V = ModeView;

    open spec fn view(&self) -> ModeView {
        ModeView {
            id: self.id@,
            name: self.name@,
            system_prompt: self.system_prompt@,
            model: self.model@,
        }
    }
}

impl DeepView for Mode {
    type V = ModeView;

    open spec fn deep_view(&self) -> ModeView {
        self@
    }
}

impl Clone for Mode {
    fn clone(&self) -> (copy: Mode)
        ensures
            copy@ == self@,
    {
        Mode {
            id: self.id.clone(),
            name: self.name.clone(),
            system_prompt: self.system_prompt.clone(),
            model: self.model.clone(),
        }
    }
}

/// Copies a list of modes.
pub fn clone_modes(modes: &Vec<Mode>) -> (copy: Vec<Mode>)
    ensures
        copy.deep_view() == modes.deep_view(),
{
    let mut copy: Vec<Mode> = Vec::new();
    let mut i: usize = 0;
    while i < modes.len()
        invariant
            0 <= i <= modes.len(),
            copy.len() == i,
            forall|k: int| 0 <= k < i ==> copy[k]@ == modes[k]@,
        decreases modes.len() - i,
    {
        copy.push(modes[i].clone());
        i += 1;
    }
    copy
}

} // verus!
