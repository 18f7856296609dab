use zaplink::settings::{
    directory_name, fetch_hotkey, file_name, read_hotkey, Settings, StoredFile,
};

fn names(items: &[&str]) -> Vec<String> {
    items.iter().map(|s| s.to_string()).collect()
}

fn text(content: &str) -> StoredFile {
    StoredFile::Text(content.to_string())
}

fn pretty_by_serde(hotkey: &str) -> String {
    let mut members = serde_json::Map::new();
    members.insert("hotkey".to_string(), serde_json::Value::String(hotkey.to_string()));
    serde_json::to_string_pretty(&serde_json::Value::Object(members)).unwrap()
}

#[test]
fn default_hotkey_is_alt_v() {
    assert_eq!(Settings::default().hotkey, "Alt+V");
}

#[test]
fn fetch_returns_stored_key_names() {
    let file = text("{\"hotkey\":\"Ctrl+Shift+L\"}");
    assert_eq!(fetch_hotkey(&file), names(&["Ctrl", "Shift", "L"]));
}

#[test]
fn update_persists_and_fetch_returns_new_key_names() {
    let mut settings = Settings::load(&text("{\"hotkey\":\"Ctrl+Shift+L\"}"));
    settings.set_hotkey(&names(&["Alt", "K"]));
    assert_eq!(settings.hotkey, "Alt+K");
    let written = settings.to_json().unwrap();
    assert_eq!(written, "{\n  \"hotkey\": \"Alt+K\"\n}");
    let stored: serde_json::Value = serde_json::from_str(&written).unwrap();
    let expected: serde_json::Value = serde_json::from_str("{\"hotkey\":\"Alt+K\"}").unwrap();
    assert_eq!(stored, expected);
    assert_eq!(fetch_hotkey(&StoredFile::Text(written)), names(&["Alt", "K"]));
}

#[test]
fn fetch_without_a_file_returns_the_default_key_names() {
    assert_eq!(fetch_hotkey(&StoredFile::Missing), names(&["Alt", "V"]));
}

#[test]
fn fetch_of_an_unreadable_file_returns_the_default_key_names() {
    assert_eq!(fetch_hotkey(&StoredFile::Unreadable), names(&["Alt", "V"]));
}

#[test]
fn text_that_is_not_json_gives_the_default() {
    assert_eq!(read_hotkey("not json"), None);
    assert_eq!(read_hotkey(""), None);
    assert_eq!(read_hotkey("{\"hotkey\":\"Alt+K\""), None);
    assert_eq!(Settings::from_json("not json").hotkey, "Alt+V");
    assert_eq!(Settings::load(&text("{\"hotkey\":")).hotkey, "Alt+V");
}

#[test]
fn object_without_the_member_gives_the_default() {
    assert_eq!(read_hotkey("{}"), None);
    assert_eq!(read_hotkey("{\"Hotkey\":\"Alt+K\"}"), None);
    assert_eq!(Settings::from_json("{\"other\":1}").hotkey, "Alt+V");
}

#[test]
fn member_that_is_no_string_gives_the_default() {
    assert_eq!(read_hotkey("{\"hotkey\":5}"), None);
    assert_eq!(read_hotkey("{\"hotkey\":null}"), None);
    assert_eq!(read_hotkey("{\"hotkey\":[\"Alt\",\"K\"]}"), None);
    assert_eq!(Settings::from_json("{\"hotkey\":true}").hotkey, "Alt+V");
}

#[test]
fn json_that_is_no_object_gives_the_default() {
    assert_eq!(read_hotkey("\"Alt+K\""), None);
    assert_eq!(read_hotkey("[\"Alt+K\"]"), None);
    assert_eq!(read_hotkey("17"), None);
    assert_eq!(Settings::from_json("null").hotkey, "Alt+V");
}

#[test]
fn other_members_are_passed_over() {
    assert_eq!(
        read_hotkey("{ \"theme\": \"dark\", \"hotkey\": \"Ctrl+B\", \"size\": [1, 2] }"),
        Some("Ctrl+B".to_string())
    );
}

#[test]
fn stored_hotkey_is_unescaped() {
    assert_eq!(read_hotkey("{\"hotkey\":\"a\\\"b\\\\c\\u00e9\"}"), Some("a\"b\\c\u{e9}".to_string()));
    assert_eq!(read_hotkey("{\"hotkey\":\"\"}"), Some(String::new()));
}

#[test]
fn from_stored_takes_the_hotkey_or_the_default() {
    assert_eq!(Settings::from_stored(Some("Ctrl+Q".to_string())).hotkey, "Ctrl+Q");
    assert_eq!(Settings::from_stored(Some(String::new())).hotkey, "");
    assert_eq!(Settings::from_stored(None).hotkey, "Alt+V");
}

#[test]
fn first_run_writes_the_default_settings() {
    let startup = Settings::at_startup(&StoredFile::Missing);
    assert!(startup.write_back);
    assert_eq!(startup.settings.hotkey, "Alt+V");
    assert_eq!(startup.settings.to_json().unwrap(), "{\n  \"hotkey\": \"Alt+V\"\n}");
}

#[test]
fn later_runs_write_nothing() {
    let stored = Settings::at_startup(&text("{\"hotkey\":\"Ctrl+Alt+Z\"}"));
    assert!(!stored.write_back);
    assert_eq!(stored.settings.hotkey, "Ctrl+Alt+Z");
    let broken = Settings::at_startup(&text("{{"));
    assert!(!broken.write_back);
    assert_eq!(broken.settings.hotkey, "Alt+V");
    let unreadable = Settings::at_startup(&StoredFile::Unreadable);
    assert!(!unreadable.write_back);
    assert_eq!(unreadable.settings.hotkey, "Alt+V");
}

#[test]
fn document_frames_the_literal() {
    assert_eq!(Settings::document("\"X\""), "{\n  \"hotkey\": \"X\"\n}");
    assert_eq!(Settings::document(""), "{\n  \"hotkey\": \n}");
}

#[test]
fn settings_text_is_what_serde_json_pretty_prints() {
    for hotkey in ["Alt+V", "", "a\"b\\c", "line\nbreak\ttab", "\u{e9}\u{4e2d}\u{1f600}", "\u{1}\u{7f}"] {
        let settings = Settings { hotkey: hotkey.to_string() };
        assert_eq!(settings.to_json().unwrap(), pretty_by_serde(hotkey));
    }
}

#[test]
fn settings_text_escapes_the_hotkey() {
    let settings = Settings { hotkey: "a\"b\\c".to_string() };
    assert_eq!(settings.to_json().unwrap(), "{\n  \"hotkey\": \"a\\\"b\\\\c\"\n}");
}

#[test]
fn written_settings_are_read_back() {
    for hotkey in ["Alt+V", "", "a\"b\\c", "line\nbreak", "\u{e9}+\u{4e2d}", "+", "Ctrl++"] {
        let settings = Settings { hotkey: hotkey.to_string() };
        let written = settings.to_json().unwrap();
        assert_eq!(Settings::from_json(&written).hotkey, hotkey);
    }
}

#[test]
fn key_names_are_the_hotkey_split_on_plus() {
    let tokens = |hotkey: &str| Settings { hotkey: hotkey.to_string() }.hotkey_tokens();
    assert_eq!(tokens("Alt+V"), names(&["Alt", "V"]));
    assert_eq!(tokens("F5"), names(&["F5"]));
    assert_eq!(tokens(""), names(&[""]));
    assert_eq!(tokens("Ctrl++"), names(&["Ctrl", "", ""]));
}

#[test]
fn set_hotkey_joins_the_key_names() {
    let mut settings = Settings::default();
    settings.set_hotkey(&names(&["Ctrl", "Shift", "L"]));
    assert_eq!(settings.hotkey, "Ctrl+Shift+L");
    settings.set_hotkey(&names(&["F5"]));
    assert_eq!(settings.hotkey, "F5");
    settings.set_hotkey(&names(&[]));
    assert_eq!(settings.hotkey, "");
}

#[test]
fn key_names_survive_set_and_fetch() {
    for tokens in [names(&["Alt", "K"]), names(&["F5"]), names(&["Ctrl", "", "X"]), names(&[""])] {
        let mut settings = Settings::default();
        settings.set_hotkey(&tokens);
        assert_eq!(settings.hotkey_tokens(), tokens);
    }
}

#[test]
fn settings_are_kept_in_zaplink_settings_json() {
    assert_eq!(directory_name(), "ZapLink");
    assert_eq!(file_name(), "settings.json");
}
