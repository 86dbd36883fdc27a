use rchat::debug_logger::{build_debug_logger, DebugSink, FileDebugLogger};
use rchat::settings::{read_settings, settings, SettingsError};
use std::path::PathBuf;

#[test]
fn no_file_gives_defaults() {
    let s = settings(None).unwrap();
    assert_eq!(s.chatgpt.api_key, "undefined");
    assert_eq!(s.chatgpt.model, "undefined");
}

#[test]
fn file_gives_key_and_model() {
    let text = "[chatgpt]\napi_key = \"sk-abc\"\nmodel = \"gpt-3.5-turbo-16k\"\n";
    let s = settings(Some(text)).unwrap();
    assert_eq!(s.chatgpt.api_key, "sk-abc");
    assert_eq!(s.chatgpt.model, "gpt-3.5-turbo-16k");
}

#[test]
fn missing_or_wrong_settings_are_named() {
    let r = read_settings("[chatgpt]\nmodel = \"m\"\n");
    assert!(matches!(r, Err(SettingsError::MissingSetting(ref k)) if k == "api_key"));
    let r = read_settings("[chatgpt]\napi_key = \"k\"\nmodel = 3\n");
    assert!(matches!(r, Err(SettingsError::MissingSetting(ref k)) if k == "model"));
    let r = read_settings("chatgpt = \"flat\"\n");
    assert!(matches!(r, Err(SettingsError::MissingSetting(ref k)) if k == "api_key"));
    let r = read_settings("[other]\napi_key = \"k\"\n");
    assert!(matches!(r, Err(SettingsError::MissingSetting(ref k)) if k == "api_key"));
}

#[test]
fn text_that_is_not_toml_is_a_parse_error() {
    let r = read_settings("[chatgpt\napi_key = ");
    assert!(matches!(r, Err(SettingsError::Parse(_))));
}

#[test]
fn file_logger_keeps_its_path() {
    let p = PathBuf::from("/tmp/rchat-debug.log");
    let log = FileDebugLogger::new(&p);
    assert_eq!(log.file_path(), &p);
}

#[test]
fn sink_follows_the_debug_arguments() {
    let p = PathBuf::from("debug.log");
    assert!(matches!(build_debug_logger(false, Some(&p)), DebugSink::Silent));
    assert!(matches!(build_debug_logger(true, None), DebugSink::Stdout));
    match build_debug_logger(true, Some(&p)) {
        DebugSink::File(l) => assert_eq!(l.file_path(), &p),
        _ => panic!("expected a file sink"),
    }
}
