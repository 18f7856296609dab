//! The stored settings: one hotkey description such as `Alt+V`, kept as a
//! JSON object with the single member `hotkey`.

use vstd::prelude::*;
use vstd::string::StringExecFns;
use crate::json::{document_members, json_literal, literal, member, parse_value, text_of};
use crate::text::{join_texts, join_with, lemma_split_of_join, split_on, split_text};

verus! {

/// The user's settings.
#[derive(Debug)]
pub struct Settings {
    /// The global shortcut, its key names joined by `+`.
    pub hotkey: String,
}

/// What was found where the settings are kept.
#[derive(Debug)]
pub enum StoredFile {
    /// There is no settings file.
    Missing,
    /// There is one, and it could not be read as text.
    Unreadable,
    /// The text of the settings file.
    Text(String),
}

/// What to do with the settings when the program starts.
#[derive(Debug)]
pub struct Startup {
    /// The settings to run with.
    pub settings: Settings,
    /// Whether these settings are to be written out, as on a first run.
    pub write_back: bool,
}

impl View for Settings {
    type V = Seq<char>;

    /// A settings record is its hotkey text.
    open spec fn view(&self) -> Seq<char> {
        self.hotkey@
    }
}

/// The hotkey of settings that nobody has stored yet.
pub open spec fn default_hotkey() -> Seq<char> {
    "Alt+V"@
}

/// The hotkey that a settings text holds: the member `hotkey` of the JSON
/// object, where the text is JSON, has that member and it is a string.
pub open spec fn stored_hotkey(text: Seq<char>) -> Option<Seq<char>> {
    match document_members(text) {
        Some(members) => if members.contains_key("hotkey"@) {
            members["hotkey"@]
        } else {
            None
        },
        None => None,
    }
}

/// The hotkey to run with, given what a settings text holds.
pub open spec fn hotkey_or_default(stored: Option<Seq<char>>) -> Seq<char> {
    match stored {
        Some(hotkey) => hotkey,
        None => default_hotkey(),
    }
}

/// The hotkey to run with, given what was found where the settings are kept.
pub open spec fn loaded_hotkey(file: StoredFile) -> Seq<char> {
    match file {
        StoredFile::Text(text) => hotkey_or_default(stored_hotkey(text@)),
        _ => default_hotkey(),
    }
}

/// The settings file around the JSON literal of the hotkey, laid out as
/// `serde_json` pretty-prints an object with one member.
pub open spec fn document_text(hotkey_literal: Seq<char>) -> Seq<char> {
    "{\n  \"hotkey\": "@ + hotkey_literal + "\n}"@
}

/// Key names that were made the hotkey are the key names of that hotkey
/// again, where there is at least one name and no name holds a `+`.
pub proof fn lemma_key_names_kept(settings: Settings, names: Seq<Seq<char>>)
    requires
        settings@ == join_with(names, '+'),
        names.len() >= 1,
        forall|i: int| 0 <= i < names.len() ==> !(#[trigger] names[i]).contains('+'),
    ensures
        split_on(settings@, '+') == names,
{
    lemma_split_of_join(names, '+');
}

/// The name of the directory, under the user's configuration directory,
/// that holds the settings file.
pub fn directory_name() -> (r: &'static str)
    ensures
        r@ == "ZapLink"@,
{
    "ZapLink"
}

/// The name of the settings file.
pub fn file_name() -> (r: &'static str)
    ensures
        r@ == "settings.json"@,
{
    "settings.json"
}

/// The text of the settings file for a hotkey: the document around the
/// hotkey's JSON literal, or `None` where `serde_json` fails to write that
/// literal.
pub open spec fn settings_text(hotkey: Seq<char>) -> Option<Seq<char>> {
    match json_literal(hotkey) {
        Some(hotkey_literal) => Some(document_text(hotkey_literal)),
        None => None,
    }
}

impl Default for Settings {
    fn default() -> (r: Settings)
        ensures
            r@ == default_hotkey(),
    {
        Settings { hotkey: String::from_str("Alt+V") }
    }
}

/// Reads the hotkey out of a settings text.
pub fn read_hotkey(text: &str) -> (r: Option<String>)
    ensures
        r matches Some(hotkey) ==> stored_hotkey(text@) == Some(hotkey@),
        r is None ==> stored_hotkey(text@) is None,
{
    match parse_value(text) {
        Ok(value) => match member(&value, "hotkey") {
            Some(found) => match text_of(found) {
                Some(hotkey) => Some(String::from_str(hotkey)),
                None => None,
            },
            None => None,
        },
        Err(_) => None,
    }
}

impl Settings {
    /// The settings for what a settings text holds: the stored hotkey, or
    /// the default where there is none.
    pub fn from_stored(stored: Option<String>) -> (r: Settings)
        ensures
            r@ == hotkey_or_default(
                match stored {
                    Some(hotkey) => Some(hotkey@),
                    None => None,
                },
            ),
    {
        match stored {
            Some(hotkey) => Settings { hotkey },
            None => Settings::default(),
        }
    }

    /// Reads settings from the text of a settings file. A text that cannot
    /// be read as settings gives the default settings.
    pub fn from_json(text: &str) -> (r: Settings)
        ensures
            r@ == hotkey_or_default(stored_hotkey(text@)),
    {
        Settings::from_stored(read_hotkey(text))
    }

    /// The settings to use for what was found where they are kept. A missing
    /// or unreadable file gives the default settings.
    pub fn load(file: &StoredFile) -> (r: Settings)
        ensures
            r@ == loaded_hotkey(*file),
    {
        match file {
            StoredFile::Text(text) => Settings::from_json(text.as_str()),
            _ => Settings::default(),
        }
    }

    /// The settings at the start of the program. Only where there is no
    /// settings file are the settings, then the default ones, written out.
    pub fn at_startup(file: &StoredFile) -> (r: Startup)
        ensures
            r.settings@ == loaded_hotkey(*file),
            r.write_back == (*file is Missing),
    {
        let write_back = match file {
            StoredFile::Missing => true,
            _ => false,
        };
        Startup { settings: Settings::load(file), write_back }
    }

    /// The key names of the hotkey: the hotkey text split on `+`.
    pub fn hotkey_tokens(&self) -> (tokens: Vec<String>)
        ensures
            tokens.deep_view() == split_on(self@, '+'),
    {
        split_text(self.hotkey.as_str(), '+')
    }

    /// Replaces the hotkey by the key names joined with `+`.
    pub fn set_hotkey(&mut self, tokens: &Vec<String>)
        ensures
            final(self)@ == join_with(tokens.deep_view(), '+'),
    {
        self.hotkey = join_texts(tokens, '+');
    }

    /// Lays out the settings file around the JSON literal of the hotkey.
    pub fn document(hotkey_literal: &str) -> (r: String)
        ensures
            r@ == document_text(hotkey_literal@),
    {
        String::from_str("{\n  \"hotkey\": ").concat(hotkey_literal).concat("\n}")
    }

    /// The text of the settings file for these settings, or `None` where,
    /// and only where, `serde_json` fails to write the hotkey.
    pub fn to_json(&self) -> (r: Option<String>)
        ensures
            r matches Some(text) ==> settings_text(self@) == Some(text@),
            r is None ==> settings_text(self@) is None,
    {
        match literal(self.hotkey.as_str()) {
            Ok(written) => Some(Settings::document(written.as_str())),
            Err(_) => None,
        }
    }
}

/// The key names of the hotkey in force, given what was found where the
/// settings are kept.
pub fn fetch_hotkey(file: &StoredFile) -> (tokens: Vec<String>)
    ensures
        tokens.deep_view() == split_on(loaded_hotkey(*file), '+'),
{
    Settings::load(file).hotkey_tokens()
}

} // verus!
