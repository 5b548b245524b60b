//! The user's settings and the rules for their default and stored values.

use crate::domain::types::{
    clone_modes, clone_vocabulary, EntryView, Mode, ModeView, VocabularyEntry,
};
use crate::json::{json_member_presence, member_presence};
use crate::text::str_eq;
use std::collections::HashMap;
use vstd::prelude::*;

verus! {

/// The mathematical value of [`AppSettings`].
pub struct SettingsView {
    pub provider: Seq<char>,
    pub base_url: Seq<char>,
    pub model: Seq<char>,
    pub hotkey: Seq<char>,
    pub hotkey_mode: Seq<char>,
    pub copy_to_clipboard_on_success: bool,
    pub api_key: Seq<char>,
    pub provider_api_keys: Map<String, String>,
    pub vocabulary: Seq<EntryView>,
    pub active_mode_id: Option<Seq<char>>,
    pub modes: Seq<ModeView>,
}

/// Everything the user can configure.
#[derive(Debug)]
pub struct AppSettings {
    pub provider: String,
    pub base_url: String,
    pub model: String,
    pub hotkey: String,
    pub hotkey_mode: String,
    pub copy_to_clipboard_on_success: bool,
    pub api_key: String,
    pub provider_api_keys: HashMap<String, String>,
    pub vocabulary: Vec<VocabularyEntry>,
    pub active_mode_id: Option<String>,
    pub modes: Vec<Mode>,
}

impl View for AppSettings {
    type V = SettingsView;

    open spec fn view(&self) -> SettingsView {
        SettingsView {
            provider: self.provider@,
            base_url: self.base_url@,
            model: self.model@,
            hotkey: self.hotkey@,
            hotkey_mode: self.hotkey_mode@,
            copy_to_clipboard_on_success: self.copy_to_clipboard_on_success,
            api_key: self.api_key@,
            provider_api_keys: self.provider_api_keys@,
            vocabulary: self.vocabulary.deep_view(),
            active_mode_id: match self.active_mode_id {
                Some(id) => Some(id@),
                None => None,
            },
            modes: self.modes.deep_view(),
        }
    }
}

/// The provider a fresh installation talks to.
pub open spec fn default_provider_name() -> Seq<char> {
    "groq"@
}

/// The hotkey of a fresh installation, in the shortcut parser's canonical spelling.
pub open spec fn default_hotkey() -> Seq<char> {
    "CommandOrControl+Space"@
}

/// The settings of a fresh installation.
pub open spec fn default_settings() -> SettingsView {
    SettingsView {
        provider: default_provider_name(),
        base_url: "https://api.groq.com/openai/v1"@,
        model: "whisper-large-v3-turbo"@,
        hotkey: default_hotkey(),
        hotkey_mode: "hold"@,
        copy_to_clipboard_on_success: false,
        api_key: Seq::empty(),
        provider_api_keys: Map::empty(),
        vocabulary: Seq::empty(),
        active_mode_id: None,
        modes: Seq::empty(),
    }
}

/// The provider assumed where stored settings name none.
pub fn default_provider() -> (name: String)
    ensures
        name@ == default_provider_name(),
{
    String::from_str("groq")
}

/// The hotkey mode assumed where stored settings name none.
pub fn default_hotkey_mode() -> (mode: String)
    ensures
        mode@ == "hold"@,
{
    String::from_str("hold")
}

/// Whether a transcript is also left on the clipboard where stored settings do not say.
pub fn default_copy_to_clipboard_on_success() -> (copy: bool)
    ensures
        !copy,
{
    false
}

impl Default for AppSettings {
    fn default() -> (settings: AppSettings)
        ensures
            settings@ == default_settings(),
    {
        let settings = AppSettings {
            provider: String::from_str("groq"),
            base_url: String::from_str("https://api.groq.com/openai/v1"),
            model: String::from_str("whisper-large-v3-turbo"),
            hotkey: String::from_str("CommandOrControl+Space"),
            hotkey_mode: String::from_str("hold"),
            copy_to_clipboard_on_success: false,
            api_key: String::new(),
            provider_api_keys: HashMap::new(),
            vocabulary: Vec::new(),
            active_mode_id: None,
            modes: Vec::new(),
        };
        proof {
            assert(settings.vocabulary.deep_view() =~= Seq::<EntryView>::empty());
            assert(settings.modes.deep_view() =~= Seq::<ModeView>::empty());
        }
        settings
    }
}

impl Clone for AppSettings {
    fn clone(&self) -> (copy: AppSettings)
        ensures
            copy@ == self@,
    {
        AppSettings {
            provider: self.provider.clone(),
            base_url: self.base_url.clone(),
            model: self.model.clone(),
            hotkey: self.hotkey.clone(),
            hotkey_mode: self.hotkey_mode.clone(),
            copy_to_clipboard_on_success: self.copy_to_clipboard_on_success,
            api_key: self.api_key.clone(),
            provider_api_keys: self.provider_api_keys.clone(),
            vocabulary: clone_vocabulary(&self.vocabulary),
            active_mode_id: match &self.active_mode_id {
                Some(id) => Some(id.clone()),
                None => None,
            },
            modes: clone_modes(&self.modes),
        }
    }
}

/// Whether a stored hotkey is one of the older spellings that are replaced by the default.
pub open spec fn retired_hotkey(hotkey: Seq<char>) -> bool {
    hotkey == "Control+Super"@ || hotkey == "Alt+Space"@ || hotkey == "Super+Space"@ || hotkey
        == "Control+Space"@
}

/// The hotkey used for a stored one: retired spellings give way to the default,
/// anything else is kept.
pub open spec fn normalized_hotkey(hotkey: Seq<char>) -> Seq<char> {
    if retired_hotkey(hotkey) {
        default_hotkey()
    } else {
        hotkey
    }
}

/// Replaces retired hotkey spellings by the default and keeps every other value.
pub fn normalize_hotkey(hotkey: &str) -> (normal: String)
    ensures
        normal@ == normalized_hotkey(hotkey@),
{
    if str_eq(hotkey, "Control+Super") || str_eq(hotkey, "Alt+Space") || str_eq(
        hotkey,
        "Super+Space",
    ) || str_eq(hotkey, "Control+Space") {
        String::from_str("CommandOrControl+Space")
    } else {
        hotkey.to_owned()
    }
}

/// The language model a provider's default modes use.
pub open spec fn default_mode_model(provider: Seq<char>) -> Seq<char> {
    if provider == "groq"@ {
        "llama-3.3-70b-versatile"@
    } else if provider == "openai"@ {
        "gpt-4o-mini"@
    } else {
        Seq::empty()
    }
}

/// What the default modes of `provider` hold: two modes, each under the text
/// of a random identifier of its own, with fixed names and prompts and the
/// provider's model.
pub open spec fn default_modes_of(provider: Seq<char>, modes: Seq<ModeView>) -> bool {
    &&& modes.len() == 2
    &&& fresh_id_text(modes[0].id)
    &&& fresh_id_text(modes[1].id)
    &&& modes[0].name == "Grammar & Punctuation"@
    &&& modes[0].system_prompt
        == "Fix grammar, punctuation, and spelling. Preserve the original meaning and tone. Return only the corrected text."@
    &&& modes[0].model == default_mode_model(provider)
    &&& modes[1].name == "Email Draft"@
    &&& modes[1].system_prompt
        == "Rewrite the following dictation as a professional email. Keep the same intent and key points. Return only the email body."@
    &&& modes[1].model == default_mode_model(provider)
}

#[verifier::external_type_specification]
#[verifier::external_body]
pub struct ExUuid(uuid::Uuid);

/// The sixteen bytes of an identifier, as `Uuid::as_bytes` gives them.
pub uninterp spec fn uuid_bytes(id: uuid::Uuid) -> Seq<u8>;

/// Whether `bytes` are those of a random identifier: sixteen bytes of which
/// the seventh carries version 4 in its upper half and the ninth starts with
/// the bits `10` of the standard variant. All other bits are left to chance.
pub open spec fn random_id_bytes(bytes: Seq<u8>) -> bool {
    &&& bytes.len() == 16
    &&& bytes[6] / 16 == 4
    &&& 128 <= bytes[8] < 192
}

/// The lowercase hexadecimal digit for a value below sixteen.
pub open spec fn hex_digit(value: int) -> char {
    if value == 0 {
        '0'
    } else if value == 1 {
        '1'
    } else if value == 2 {
        '2'
    } else if value == 3 {
        '3'
    } else if value == 4 {
        '4'
    } else if value == 5 {
        '5'
    } else if value == 6 {
        '6'
    } else if value == 7 {
        '7'
    } else if value == 8 {
        '8'
    } else if value == 9 {
        '9'
    } else if value == 10 {
        'a'
    } else if value == 11 {
        'b'
    } else if value == 12 {
        'c'
    } else if value == 13 {
        'd'
    } else if value == 14 {
        'e'
    } else {
        'f'
    }
}

/// Whether a hyphen stands at position `at` of an identifier's text.
pub open spec fn hyphen_at(at: int) -> bool {
    at == 8 || at == 13 || at == 18 || at == 23
}

/// Which of the thirty-two digits stands at position `at` of an identifier's
/// text, where no hyphen stands.
pub open spec fn digit_at(at: int) -> int {
    if at < 8 {
        at
    } else if at < 13 {
        at - 1
    } else if at < 18 {
        at - 2
    } else if at < 23 {
        at - 3
    } else {
        at - 4
    }
}

/// The character at position `at` of the text of the identifier with the
/// given bytes: a hyphen, or the digit for the upper or the lower half of the
/// byte that the position belongs to.
pub open spec fn id_char(bytes: Seq<u8>, at: int) -> char {
    if hyphen_at(at) {
        '-'
    } else {
        let digit = digit_at(at);
        let byte = bytes[digit / 2] as int;
        if digit % 2 == 0 {
            hex_digit(byte / 16)
        } else {
            hex_digit(byte % 16)
        }
    }
}

/// The text of the identifier with the given bytes: thirty-two lowercase
/// hexadecimal digits, two for each byte in order, in groups of 8, 4, 4, 4
/// and 12 with a hyphen between two groups.
pub open spec fn id_text(bytes: Seq<u8>) -> Seq<char> {
    Seq::new(36, |at: int| id_char(bytes, at))
}

/// Whether `text` is the text of some random identifier.
pub open spec fn fresh_id_text(text: Seq<char>) -> bool {
    exists|bytes: Seq<u8>| random_id_bytes(bytes) && text == #[trigger] id_text(bytes)
}

/// Whether `c` is a lowercase hexadecimal digit.
pub open spec fn lower_hex(c: char) -> bool {
    ('0' <= c && c <= '9') || ('a' <= c && c <= 'f')
}

/// The text of a random identifier is 36 characters long, has hyphens at
/// positions 8, 13, 18 and 23 and lowercase hexadecimal digits everywhere
/// else, shows the version, 4, at position 14, and one of `8`, `9`, `a`
/// and `b` at position 19.
pub proof fn lemma_fresh_id_text_shape(text: Seq<char>)
    requires
        fresh_id_text(text),
    ensures
        text.len() == 36,
        forall|at: int| 0 <= at < 36 && hyphen_at(at) ==> text[at] == '-',
        forall|at: int| 0 <= at < 36 && !hyphen_at(at) ==> lower_hex(#[trigger] text[at]),
        text[14] == '4',
        text[19] == '8' || text[19] == '9' || text[19] == 'a' || text[19] == 'b',
{
    let bytes = choose|bytes: Seq<u8>| random_id_bytes(bytes) && text == #[trigger] id_text(bytes);
    assert forall|at: int| 0 <= at < 36 && !hyphen_at(at) implies lower_hex(
        #[trigger] text[at],
    ) by {
        let byte = bytes[digit_at(at) / 2] as int;
        assert(0 <= byte / 16 < 16 && 0 <= byte % 16 < 16);
    }
    assert(text[14] == hex_digit((bytes[6] as int) / 16));
    assert(text[19] == hex_digit((bytes[8] as int) / 16));
}

/// `Uuid::new_v4`: a random identifier of version 4 and of the standard
/// variant; which one is left to chance.
#[verifier::external_body]
fn random_uuid() -> (id: uuid::Uuid)
    ensures
        random_id_bytes(uuid_bytes(id)),
{
    uuid::Uuid::new_v4()
}

/// `Uuid`'s `Display`: the hyphenated lowercase text of the identifier's bytes.
#[verifier::external_body]
fn uuid_text(id: &uuid::Uuid) -> (text: String)
    ensures
        text@ == id_text(uuid_bytes(*id)),
{
    id.to_string()
}

/// A fresh random identifier in text form: a random identifier of version 4
/// is drawn and written in lowercase hexadecimal with hyphens. Which
/// identifier it is, is left to chance; its form is as
/// [`lemma_fresh_id_text_shape`] says.
pub fn fresh_id() -> (id: String)
    ensures
        fresh_id_text(id@),
{
    let id = random_uuid();
    uuid_text(&id)
}

/// The two modes a provider starts with, each under a fresh identifier.
pub fn default_modes(provider: &str) -> (modes: Vec<Mode>)
    ensures
        default_modes_of(provider@, modes.deep_view()),
{
    let model = if str_eq(provider, "groq") {
        String::from_str("llama-3.3-70b-versatile")
    } else if str_eq(provider, "openai") {
        String::from_str("gpt-4o-mini")
    } else {
        String::new()
    };
    let mut modes: Vec<Mode> = Vec::new();
    modes.push(
        Mode {
            id: fresh_id(),
            name: String::from_str("Grammar & Punctuation"),
            system_prompt: String::from_str(
                "Fix grammar, punctuation, and spelling. Preserve the original meaning and tone. Return only the corrected text.",
            ),
            model: model.clone(),
        },
    );
    modes.push(
        Mode {
            id: fresh_id(),
            name: String::from_str("Email Draft"),
            system_prompt: String::from_str(
                "Rewrite the following dictation as a professional email. Keep the same intent and key points. Return only the email body.",
            ),
            model,
        },
    );
    modes
}

/// Whether stored text knows about modes: it is a JSON object with a member
/// named `modes`. Text that is not JSON, or JSON that is not an object,
/// knows of none.
pub open spec fn knows_modes(contents: Seq<char>) -> bool {
    json_member_presence(contents, "modes"@) == Ok::<Option<bool>, Seq<char>>(Some(true))
}

/// Tells whether stored settings already know about modes. Settings that
/// never knew about modes are given the defaults; settings that list none
/// keep none.
pub fn json_has_modes_field(contents: &str) -> (known: bool)
    ensures
        known == knows_modes(contents@),
{
    match member_presence(contents, "modes") {
        Ok(Some(found)) => found,
        Ok(None) => false,
        Err(_) => false,
    }
}

/// Where the application's files go.
#[derive(Debug, PartialEq, Eq)]
pub enum ConfigBase {
    /// Directly below the named directory.
    Below(String),
    /// Below `.config` in the named home directory.
    BelowHomeConfig(String),
    /// Below the system's directory for temporary files.
    Temporary,
}

/// The mathematical value of a [`ConfigBase`].
pub enum ConfigBaseView {
    Below(Seq<char>),
    BelowHomeConfig(Seq<char>),
    Temporary,
}

impl View for ConfigBase {
    type V = ConfigBaseView;

    open spec fn view(&self) -> ConfigBaseView {
        match self {
            ConfigBase::Below(directory) => ConfigBaseView::Below(directory@),
            ConfigBase::BelowHomeConfig(home) => ConfigBaseView::BelowHomeConfig(home@),
            ConfigBase::Temporary => ConfigBaseView::Temporary,
        }
    }
}

/// The place chosen among the directories the environment names: the
/// application data directory first, then the configuration directory, then
/// the home directory, and the temporary directory if it names none.
pub open spec fn config_base_of(
    app_data: Option<Seq<char>>,
    config_home: Option<Seq<char>>,
    home: Option<Seq<char>>,
) -> ConfigBaseView {
    match app_data {
        Some(directory) => ConfigBaseView::Below(directory),
        None => match config_home {
            Some(directory) => ConfigBaseView::Below(directory),
            None => match home {
                Some(directory) => ConfigBaseView::BelowHomeConfig(directory),
                None => ConfigBaseView::Temporary,
            },
        },
    }
}

/// Chooses where the application's files go.
pub fn choose_config_base(
    app_data: Option<String>,
    config_home: Option<String>,
    home: Option<String>,
) -> (base: ConfigBase)
    ensures
        base@ == config_base_of(app_data.deep_view(), config_home.deep_view(), home.deep_view()),
{
    match app_data {
        Some(directory) => ConfigBase::Below(directory),
        None => match config_home {
            Some(directory) => ConfigBase::Below(directory),
            None => match home {
                Some(directory) => ConfigBase::BelowHomeConfig(directory),
                None => ConfigBase::Temporary,
            },
        },
    }
}

} // verus!
