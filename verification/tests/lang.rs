use isolang::Language;
use lenzu::lang::{flag_for_code, lang_flag, language_code, ready_status, ready_status_for_codes};

#[test]
fn flags_of_common_languages() {
    assert_eq!(lang_flag(&Language::Jpn), "🇯🇵");
    assert_eq!(lang_flag(&Language::Eng), "🇺🇸");
    assert_eq!(lang_flag(&Language::Zho), "🇨🇳");
    assert_eq!(lang_flag(&Language::Kor), "🇰🇷");
    assert_eq!(lang_flag(&Language::Fra), "🇫🇷");
    assert_eq!(lang_flag(&Language::Deu), "🇩🇪");
    assert_eq!(lang_flag(&Language::Spa), "🇪🇸");
}

#[test]
fn other_languages_get_a_globe() {
    assert_eq!(lang_flag(&Language::Ita), "🌐");
    assert_eq!(lang_flag(&Language::Gha), "🌐");
    assert_eq!(flag_for_code(None), "🌐");
    assert_eq!(flag_for_code(Some("xx")), "🌐");
    assert_eq!(flag_for_code(Some("ja")), "🇯🇵");
}

#[test]
fn ready_status_line() {
    assert_eq!(
        ready_status(&Language::Jpn, &Language::Eng),
        "🇯🇵→🇺🇸 | Shift+Click | Ctrl+Shift+Click | Shift+H:ヘルプ | ESC"
    );
}

#[test]
fn language_codes() {
    assert_eq!(language_code(&Language::Jpn).as_deref(), Some("ja"));
    assert_eq!(language_code(&Language::Gha), None);
    assert_eq!(
        ready_status_for_codes(Some("en"), Some("ja")),
        "🇺🇸→🇯🇵 | Shift+Click | Ctrl+Shift+Click | Shift+H:ヘルプ | ESC"
    );
}
