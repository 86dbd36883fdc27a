//! Provider settings, and how they are read from the text of a settings file.

use vstd::prelude::*;

use crate::toml_doc::{parse_table, table_entry, toml_document, toml_table, TomlTree};

verus! {

/// What the chat-completion provider needs: the credential and the model.
pub struct ChatGptSettings {
    pub api_key: String,
    pub model: String,
}

pub ghost struct ChatGptSettingsView {
    pub api_key: Seq<char>,
    pub model: Seq<char>,
}

impl View for ChatGptSettings {
    type V = ChatGptSettingsView;

    open spec fn view(&self) -> ChatGptSettingsView {
        ChatGptSettingsView { api_key: self.api_key@, model: self.model@ }
    }
}

/// All settings.
pub struct Settings {
    pub chatgpt: ChatGptSettings,
}

impl View for Settings {
    type V = ChatGptSettingsView;

    open spec fn view(&self) -> ChatGptSettingsView {
        self.chatgpt@
    }
}

/// Why the settings could not be read.
#[derive(Debug, PartialEq, Eq)]
pub enum SettingsError {
    /// The text is not a TOML document; the parser's description.
    Parse(String),
    /// `chatgpt.<key>` is missing or is not a string; the key.
    MissingSetting(String),
}

pub ghost enum SettingsErrorView {
    Parse,
    MissingSetting(Seq<char>),
}

impl View for SettingsError {
    type V = SettingsErrorView;

    open spec fn view(&self) -> SettingsErrorView {
        match self {
            SettingsError::Parse(_) => SettingsErrorView::Parse,
            SettingsError::MissingSetting(k) => SettingsErrorView::MissingSetting(k@),
        }
    }
}

pub open spec fn settings_view(r: Result<Settings, SettingsError>) -> Result<
    ChatGptSettingsView,
    SettingsErrorView,
> {
    match r {
        Ok(s) => Ok(s@),
        Err(e) => Err(e@),
    }
}

/// The value placed in every setting that no file gives.
pub const UNDEFINED: &'static str = "undefined";

/// The table of the provider's settings.
pub const SECTION: &'static str = "chatgpt";

/// The string `chatgpt.<key>` of a document.
pub open spec fn setting_in(doc: Map<Seq<char>, TomlTree>, key: Seq<char>) -> Option<Seq<char>> {
    if doc.contains_key(SECTION@) {
        match doc[SECTION@] {
            TomlTree::Table(m) => if m.contains_key(key) {
                match m[key] {
                    TomlTree::Str(s) => Some(s),
                    _ => None,
                }
            } else {
                None
            },
            _ => None,
        }
    } else {
        None
    }
}

/// The settings that a settings file's text gives: `chatgpt.api_key` and
/// `chatgpt.model`, both strings, the credential looked for first.
pub open spec fn settings_from_text(text: Seq<char>) -> Result<ChatGptSettingsView, SettingsErrorView> {
    match toml_document(text) {
        None => Err(SettingsErrorView::Parse),
        Some(doc) => match (setting_in(doc, "api_key"@), setting_in(doc, "model"@)) {
            (Some(api_key), Some(model)) => Ok(ChatGptSettingsView { api_key, model }),
            (None, _) => Err(SettingsErrorView::MissingSetting("api_key"@)),
            (_, None) => Err(SettingsErrorView::MissingSetting("model"@)),
        },
    }
}

/// The provider settings used where no settings file is found.
pub fn default_chatgpt_settings() -> (r: ChatGptSettings)
    ensures
        r@ == (ChatGptSettingsView { api_key: UNDEFINED@, model: UNDEFINED@ }),
{
    ChatGptSettings { api_key: UNDEFINED.to_string(), model: UNDEFINED.to_string() }
}

/// The settings used where no settings file is found.
pub fn default_settings() -> (r: Settings)
    ensures
        r@ == (ChatGptSettingsView { api_key: UNDEFINED@, model: UNDEFINED@ }),
{
    Settings { chatgpt: default_chatgpt_settings() }
}

/// The string `chatgpt.<key>` of a parsed settings table.
fn setting(table: &toml::Table, key: &str) -> (r: Option<String>)
    ensures
        match r {
            Some(s) => setting_in(toml_table(*table), key@) == Some(s@),
            None => setting_in(toml_table(*table), key@) is None,
        },
{
    match table_entry(table, SECTION) {
        Some(section) => match section.as_table() {
            Some(inner) => match table_entry(inner, key) {
                Some(v) => match v.as_str() {
                    Some(s) => Some(s.to_string()),
                    None => None,
                },
                None => None,
            },
            None => None,
        },
        None => None,
    }
}

/// Reads the settings from the text of a settings file.
pub fn read_settings(text: &str) -> (r: Result<Settings, SettingsError>)
    ensures
        settings_view(r) == settings_from_text(text@),
{
    match parse_table(text) {
        Err(e) => Err(SettingsError::Parse(e.to_string())),
        Ok(table) => {
            let api_key = setting(&table, "api_key");
            let model = setting(&table, "model");
            match (api_key, model) {
                (Some(api_key), Some(model)) => Ok(
                    Settings { chatgpt: ChatGptSettings { api_key, model } },
                ),
                (None, _) => Err(SettingsError::MissingSetting("api_key".to_string())),
                (_, None) => Err(SettingsError::MissingSetting("model".to_string())),
            }
        },
    }
}

/// The settings: those of the settings file where there is one (its text is
/// given), the defaults where there is none.
pub fn settings(file_text: Option<&str>) -> (r: Result<Settings, SettingsError>)
    ensures
        settings_view(r) == match file_text {
            Some(t) => settings_from_text(t@),
            None => Ok(ChatGptSettingsView { api_key: UNDEFINED@, model: UNDEFINED@ }),
        },
{
    match file_text {
        Some(t) => read_settings(t),
        None => Ok(default_settings()),
    }
}

} // verus!
