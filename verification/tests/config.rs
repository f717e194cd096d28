use win_opt::{Config, Language, Theme};

#[test]
fn test_default_config() {
    let config = Config::default();
    assert_eq!(config.appearance.theme, Theme::Dark);
    assert_eq!(config.language.language, Language::Spanish);
    assert!(config.appearance.remember_theme);
    assert!(config.logging.file_logging);
}

#[test]
fn test_config_getters_setters() {
    let mut config = Config::default();

    config.set_theme(Theme::Light);
    assert_eq!(config.theme(), Theme::Light);

    config.set_language(Language::English);
    assert_eq!(config.language(), Language::English);
}

#[test]
fn test_default_logging_config() {
    let config = Config::default();
    assert_eq!(config.logging.level, "info");
    assert_eq!(config.logging.retention_days, 7);
}

#[test]
fn test_wants_saving() {
    let mut config = Config::default();
    assert!(config.wants_saving());
    config.appearance.remember_theme = false;
    assert!(config.wants_saving());
    config.language.remember_language = false;
    assert!(!config.wants_saving());
}
