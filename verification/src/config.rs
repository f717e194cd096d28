//! The application configuration: appearance, language and logging
//! preferences.  Reading and writing the configuration file is the shell's
//! business; the library owns the values, their defaults and their
//! accessors.

use crate::i18n::Language;
use crate::theme::Theme;
use vstd::prelude::*;
use vstd::string::StringExecFns;

verus! {

/// Appearance preferences.
#[derive(Debug, Clone)]
pub struct AppearanceConfig {
    /// The chosen theme.
    pub theme: Theme,
    /// Whether to persist the last used theme.
    pub remember_theme: bool,
}

/// Language preferences.
#[derive(Debug, Clone)]
pub struct LanguageConfig {
    /// The chosen language.
    pub language: Language,
    /// Whether to persist the last used language.
    pub remember_language: bool,
}

/// Logging preferences.
#[derive(Debug, Clone)]
pub struct LoggingConfig {
    /// Log level name: trace, debug, info, warn or error.
    pub level: String,
    /// Whether to log to a file at all.
    pub file_logging: bool,
    /// How many days of log files to keep.
    pub retention_days: u32,
}

/// The whole application configuration.
#[derive(Debug, Clone)]
pub struct Config {
    pub appearance: AppearanceConfig,
    pub language: LanguageConfig,
    pub logging: LoggingConfig,
}

impl Default for Config {
    /// The configuration a fresh installation starts with: dark theme,
    /// Spanish, file logging at level info kept for a week, everything
    /// remembered.
    fn default() -> (r: Self)
        ensures
            r.appearance.theme is Dark,
            r.appearance.remember_theme,
            r.language.language is Spanish,
            r.language.remember_language,
            r.logging.level@ == "info"@,
            r.logging.file_logging,
            r.logging.retention_days == 7,
    {
        Config {
            appearance: AppearanceConfig { theme: Theme::Dark, remember_theme: true },
            language: LanguageConfig { language: Language::Spanish, remember_language: true },
            logging: LoggingConfig {
                level: String::from_str("info"),
                file_logging: true,
                retention_days: 7,
            },
        }
    }
}

impl Config {
    /// The configured theme.
    pub fn theme(&self) -> (r: Theme)
        ensures
            r == self.appearance.theme,
    {
        self.appearance.theme
    }

    /// Chooses a theme.
    pub fn set_theme(&mut self, theme: Theme)
        ensures
            final(self).appearance.theme == theme,
            final(self).appearance.remember_theme == old(self).appearance.remember_theme,
            final(self).language == old(self).language,
            final(self).logging == old(self).logging,
    {
        self.appearance.theme = theme;
    }

    /// The configured language.
    pub fn language(&self) -> (r: Language)
        ensures
            r == self.language.language,
    {
        self.language.language
    }

    /// Chooses a language.
    pub fn set_language(&mut self, language: Language)
        ensures
            final(self).language.language == language,
            final(self).language.remember_language == old(self).language.remember_language,
            final(self).appearance == old(self).appearance,
            final(self).logging == old(self).logging,
    {
        self.language.language = language;
    }

    /// Whether the configuration wants to be persisted when theme or
    /// language change.
    pub fn wants_saving(&self) -> (r: bool)
        ensures
            r == (self.appearance.remember_theme || self.language.remember_language),
    {
        self.appearance.remember_theme || self.language.remember_language
    }
}

} // verus!
