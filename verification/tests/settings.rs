use codex_tray::clock::stamp_of;
use codex_tray::json::JsonValue;
use codex_tray::settings::{
    initial_settings, read_settings, settings_document, settings_from_text, settings_text, Language, Settings,
};

#[test]
fn language_codes_read_back() {
    let all = [
        Language::System, Language::En, Language::Es, Language::Fr, Language::Pt, Language::De, Language::It,
        Language::Ru, Language::ZhCn, Language::Hi, Language::Ar, Language::Ja, Language::Ko,
    ];
    for language in all {
        assert_eq!(Language::from_code(language.code()), Some(language));
    }
    assert_eq!(Language::ZhCn.code(), "zh-CN");
    assert_eq!(Language::from_code("zh-cn"), None);
    assert_eq!(Language::from_code("EN"), None);
    assert_eq!(Language::from_code(""), None);
}

#[test]
fn settings_are_written_and_read_back() {
    let settings = initial_settings(true);
    assert_eq!(settings, Settings { language: Language::System, start_with_windows: true });
    assert_eq!(settings_text(settings), r#"{"language":"system","start_with_windows":true}"#);
    let chosen = Settings { language: Language::De, start_with_windows: false };
    assert_eq!(read_settings(&settings_document(chosen)), Some(chosen));
    assert_eq!(settings_from_text(&settings_text(chosen)), Some(chosen));
    assert_eq!(
        settings_from_text("{\n  \"language\": \"ko\",\n  \"start_with_windows\": false\n}"),
        Some(Settings { language: Language::Ko, start_with_windows: false })
    );
}

#[test]
fn malformed_settings_are_rejected() {
    assert_eq!(settings_from_text("not json"), None);
    assert_eq!(settings_from_text(r#"{"language":"xx","start_with_windows":false}"#), None);
    assert_eq!(settings_from_text(r#"{"language":"en"}"#), None);
    assert_eq!(settings_from_text(r#"{"language":"en","start_with_windows":"yes"}"#), None);
    assert_eq!(read_settings(&JsonValue::Null), None);
}

#[test]
fn clock_seconds_become_stamps_within_i64() {
    assert_eq!(stamp_of(None), None);
    assert_eq!(stamp_of(Some(0)), Some(0));
    assert_eq!(stamp_of(Some(1_700_000_000)), Some(1_700_000_000));
    assert_eq!(stamp_of(Some(i64::MAX as u64)), Some(i64::MAX));
    assert_eq!(stamp_of(Some(i64::MAX as u64 + 1)), None);
}
