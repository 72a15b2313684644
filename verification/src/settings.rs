//! The portable settings kept in `codex-tray.json` next to the executable:
//! the panel's language and whether the tray starts with Windows.
use vstd::prelude::*;
use crate::json::{
    JsonValue, JsonModel, entries_model, lemma_object_model, str_of, bool_of, lookup, key_at, key_index, lemma_key_index,
    lemma_key_at_unique,
};
use crate::wire::{LineRead, json_string, json_text, parsed_line, read_line_event};

verus! {

broadcast use vstd::string::group_string_axioms;

/// The language the panel speaks: the system's, or a chosen one.
#[derive(Clone, Copy, Debug, PartialEq, Eq, Structural)]
pub enum Language {
    System,
    En,
    Es,
    Fr,
    Pt,
    De,
    It,
    Ru,
    ZhCn,
    Hi,
    Ar,
    Ja,
    Ko,
}

/// The code a language is stored under.
pub open spec fn language_code(language: Language) -> Seq<char> {
    match language {
        Language::System => "system"@,
        Language::En => "en"@,
        Language::Es => "es"@,
        Language::Fr => "fr"@,
        Language::Pt => "pt"@,
        Language::De => "de"@,
        Language::It => "it"@,
        Language::Ru => "ru"@,
        Language::ZhCn => "zh-CN"@,
        Language::Hi => "hi"@,
        Language::Ar => "ar"@,
        Language::Ja => "ja"@,
        Language::Ko => "ko"@,
    }
}

/// The language stored under a code, if the code is one of the accepted ones.
pub open spec fn language_of(code: Seq<char>) -> Option<Language> {
    if code == "system"@ {
        Some(Language::System)
    } else if code == "en"@ {
        Some(Language::En)
    } else if code == "es"@ {
        Some(Language::Es)
    } else if code == "fr"@ {
        Some(Language::Fr)
    } else if code == "pt"@ {
        Some(Language::Pt)
    } else if code == "de"@ {
        Some(Language::De)
    } else if code == "it"@ {
        Some(Language::It)
    } else if code == "ru"@ {
        Some(Language::Ru)
    } else if code == "zh-CN"@ {
        Some(Language::ZhCn)
    } else if code == "hi"@ {
        Some(Language::Hi)
    } else if code == "ar"@ {
        Some(Language::Ar)
    } else if code == "ja"@ {
        Some(Language::Ja)
    } else if code == "ko"@ {
        Some(Language::Ko)
    } else {
        None
    }
}

fn same_text(a: &str, b: &str) -> (r: bool)
    ensures
        r == (a@ == b@),
{
    let a = a.to_owned();
    let b = b.to_owned();
    a == b
}

impl Language {
    /// The code this language is stored under.
    pub fn code(self) -> (r: &'static str)
        ensures
            r@ == language_code(self),
    {
        match self {
            Language::System => "system",
            Language::En => "en",
            Language::Es => "es",
            Language::Fr => "fr",
            Language::Pt => "pt",
            Language::De => "de",
            Language::It => "it",
            Language::Ru => "ru",
            Language::ZhCn => "zh-CN",
            Language::Hi => "hi",
            Language::Ar => "ar",
            Language::Ja => "ja",
            Language::Ko => "ko",
        }
    }

    /// The language stored under `code`, or `None` for a code that is not
    /// accepted.
    pub fn from_code(code: &str) -> (r: Option<Language>)
        ensures
            r == language_of(code@),
    {
        if same_text(code, "system") {
            Some(Language::System)
        } else if same_text(code, "en") {
            Some(Language::En)
        } else if same_text(code, "es") {
            Some(Language::Es)
        } else if same_text(code, "fr") {
            Some(Language::Fr)
        } else if same_text(code, "pt") {
            Some(Language::Pt)
        } else if same_text(code, "de") {
            Some(Language::De)
        } else if same_text(code, "it") {
            Some(Language::It)
        } else if same_text(code, "ru") {
            Some(Language::Ru)
        } else if same_text(code, "zh-CN") {
            Some(Language::ZhCn)
        } else if same_text(code, "hi") {
            Some(Language::Hi)
        } else if same_text(code, "ar") {
            Some(Language::Ar)
        } else if same_text(code, "ja") {
            Some(Language::Ja)
        } else if same_text(code, "ko") {
            Some(Language::Ko)
        } else {
            None
        }
    }
}

/// Reading a language's code gives the language back: the codes are distinct.
pub proof fn lemma_language_code_round_trip(language: Language)
    ensures
        language_of(language_code(language)) == Some(language),
{
    reveal_strlit("system");
    reveal_strlit("en");
    reveal_strlit("es");
    reveal_strlit("fr");
    reveal_strlit("pt");
    reveal_strlit("de");
    reveal_strlit("it");
    reveal_strlit("ru");
    reveal_strlit("zh-CN");
    reveal_strlit("hi");
    reveal_strlit("ar");
    reveal_strlit("ja");
    reveal_strlit("ko");
    assert("system"@ =~= seq!['s', 'y', 's', 't', 'e', 'm']);
    assert("en"@ =~= seq!['e', 'n']);
    assert("es"@ =~= seq!['e', 's']);
    assert("fr"@ =~= seq!['f', 'r']);
    assert("pt"@ =~= seq!['p', 't']);
    assert("de"@ =~= seq!['d', 'e']);
    assert("it"@ =~= seq!['i', 't']);
    assert("ru"@ =~= seq!['r', 'u']);
    assert("zh-CN"@ =~= seq!['z', 'h', '-', 'C', 'N']);
    assert("hi"@ =~= seq!['h', 'i']);
    assert("ar"@ =~= seq!['a', 'r']);
    assert("ja"@ =~= seq!['j', 'a']);
    assert("ko"@ =~= seq!['k', 'o']);
}

/// The settings file's contents.
#[derive(Clone, Copy, Debug, PartialEq, Eq, Structural)]
pub struct Settings {
    pub language: Language,
    pub start_with_windows: bool,
}

/// The settings written on first launch: the system language, and the
/// startup preference taken over from an existing startup entry.
pub fn initial_settings(start_with_windows: bool) -> (r: Settings)
    ensures
        r == (Settings { language: Language::System, start_with_windows }),
{
    Settings { language: Language::System, start_with_windows }
}

/// `{"language": code, "start_with_windows": flag}`
pub open spec fn settings_model(settings: Settings) -> JsonModel {
    JsonModel::Object(
        seq![
            ("language"@, JsonModel::Text(language_code(settings.language))),
            ("start_with_windows"@, JsonModel::Bool(settings.start_with_windows)),
        ],
    )
}

/// The settings a document holds: a `language` member with an accepted
/// code and a boolean `start_with_windows` member; `None` otherwise.
pub open spec fn settings_of(document: JsonModel) -> Option<Settings> {
    match (str_of(document.get("language"@)), bool_of(document.get("start_with_windows"@))) {
        (Some(code), Some(flag)) => match language_of(code) {
            Some(language) => Some(Settings { language, start_with_windows: flag }),
            None => None,
        },
        _ => None,
    }
}

/// The settings as a JSON document.
pub fn settings_document(settings: Settings) -> (r: JsonValue)
    ensures
        r@ == settings_model(settings),
{
    let entries = vec![
        ("language".to_owned(), JsonValue::String(settings.language.code().to_owned())),
        ("start_with_windows".to_owned(), JsonValue::Bool(settings.start_with_windows)),
    ];
    proof {
        lemma_object_model(entries);
        assert(entries_model(entries@) =~= settings_model(settings)->Object_0);
    }
    JsonValue::Object(entries)
}

/// The settings a JSON document holds, or `None` where a member is missing,
/// has the wrong type, or names a language that is not accepted.
pub fn read_settings(document: &JsonValue) -> (r: Option<Settings>)
    ensures
        r == settings_of(document@),
{
    let code = match document.get("language") {
        Some(v) => v.as_str(),
        None => None,
    };
    let flag = match document.get("start_with_windows") {
        Some(v) => v.as_bool(),
        None => None,
    };
    match (code, flag) {
        (Some(code), Some(flag)) => match Language::from_code(code) {
            Some(language) => Some(Settings { language, start_with_windows: flag }),
            None => None,
        },
        _ => None,
    }
}

/// The text of the settings file.
pub fn settings_text(settings: Settings) -> (r: String)
    ensures
        r@ == json_text(settings_model(settings)),
{
    json_string(&settings_document(settings))
}

/// The settings in the text of a settings file: `None` where the text is not
/// JSON, or the document does not hold settings.
pub fn settings_from_text(text: &str) -> (r: Option<Settings>)
    ensures
        match parsed_line(text@) {
            Ok(document) => r == settings_of(document),
            Err(_) => r is None,
        },
{
    match read_line_event(Some(Ok(text.to_owned()))) {
        LineRead::Parsed(document) => read_settings(&document),
        _ => None,
    }
}

/// Reading the document written for some settings gives those settings back.
pub proof fn lemma_settings_round_trip(settings: Settings)
    ensures
        settings_of(settings_model(settings)) == Some(settings),
{
    reveal_strlit("language");
    reveal_strlit("start_with_windows");
    assert("language"@.len() == 8);
    assert("start_with_windows"@.len() == 18);
    let entries = settings_model(settings)->Object_0;
    assert(entries[0].0 == "language"@);
    assert(key_at(entries, "language"@, 0));
    lemma_key_index(entries, "language"@);
    assert(key_at(entries, "start_with_windows"@, 1));
    lemma_key_index(entries, "start_with_windows"@);
    lemma_key_at_unique(entries, "language"@, 0, key_index(entries, "language"@));
    lemma_key_at_unique(
        entries,
        "start_with_windows"@,
        1,
        key_index(entries, "start_with_windows"@),
    );
    assert(lookup(entries, "language"@) == Some(JsonModel::Text(language_code(settings.language))));
    assert(lookup(entries, "start_with_windows"@) == Some(JsonModel::Bool(settings.start_with_windows)));
    lemma_language_code_round_trip(settings.language);
}

} // verus!
