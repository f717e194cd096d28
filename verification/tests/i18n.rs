use win_opt::{I18n, I18nKey, Language};

#[test]
fn test_language_code() {
    assert_eq!(Language::Spanish.code(), "es");
    assert_eq!(Language::English.code(), "en");
}

#[test]
fn test_language_native_name() {
    assert_eq!(Language::Spanish.native_name(), "Español");
    assert_eq!(Language::English.native_name(), "English");
}

#[test]
fn test_i18n_spanish() {
    let i18n = I18n::new(Language::Spanish);
    assert_eq!(i18n.t(I18nKey::AppTitle), "WIN OPT");
    assert_eq!(i18n.t(I18nKey::MenuTempFiles), "Archivos Temporales");
}

#[test]
fn test_i18n_english() {
    let i18n = I18n::new(Language::English);
    assert_eq!(i18n.t(I18nKey::AppTitle), "WIN OPT");
    assert_eq!(i18n.t(I18nKey::MenuTempFiles), "Temporary Files");
}

#[test]
fn test_toggle_language() {
    let mut i18n = I18n::new(Language::Spanish);
    assert_eq!(i18n.current_language(), Language::Spanish);

    i18n.toggle_language();
    assert_eq!(i18n.current_language(), Language::English);

    i18n.toggle_language();
    assert_eq!(i18n.current_language(), Language::Spanish);
}

#[test]
fn test_set_language() {
    let mut i18n = I18n::new(Language::Spanish);
    i18n.set_language(Language::English);
    assert_eq!(i18n.current_language(), Language::English);
    assert_eq!(i18n.t(I18nKey::MenuExit), "Exit");
}

#[test]
fn test_language_default() {
    assert_eq!(Language::default(), Language::Spanish);
}
