use fitnesstrax_core::config::{Configuration, LanguageId};
use fitnesstrax_core::dates::Timezone;
use fitnesstrax_core::errors::Error;
use fitnesstrax_core::i18n::{Text, UnitSystem};
use fitnesstrax_core::settings::Settings;

#[test]
fn language_identifiers_keep_their_text_and_yield_their_language() {
    let id = LanguageId::parse("en-US").unwrap();
    assert_eq!(id.tag(), "en-US");
    assert_eq!(id.get_language(), "en");
    assert_eq!(LanguageId::parse("eo").unwrap().get_language(), "eo");
    assert_eq!(LanguageId::parse("EN").unwrap().get_language(), "en");
    assert_eq!(LanguageId::english().get_language(), "en");
    assert_eq!(LanguageId::english().tag(), "en");
    assert_eq!(LanguageId::parse("not a language"), None);
    assert_eq!(LanguageId::parse("e"), None);
}

#[test]
fn the_fallback_configuration() {
    let config = Configuration::fallback();
    assert_eq!(config.series_path, None);
    assert_eq!(config.language.get_language(), "en");
    assert_eq!(config.timezone.name(), "Etc/UTC");
    assert_eq!(config.units, UnitSystem::SI);
}

#[test]
fn a_configuration_is_stored_as_four_texts() {
    let config =
        Configuration::from_stored("/home/me/series", "eo", "America/Chicago", "USA").unwrap();
    assert_eq!(config.series_path, Some(String::from("/home/me/series")));
    assert_eq!(config.language.get_language(), "eo");
    assert_eq!(config.timezone.name(), "America/Chicago");
    assert_eq!(config.units, UnitSystem::USA);
    let stored = config.to_stored();
    assert_eq!(stored.series_path, "/home/me/series");
    assert_eq!(stored.language, "eo");
    assert_eq!(stored.timezone, "America/Chicago");
    assert_eq!(stored.units, "USA");

    let no_series = Configuration::from_stored("", "en-GB", "Etc/UTC", "SI").unwrap();
    assert_eq!(no_series.series_path, None);
    let stored = no_series.to_stored();
    assert_eq!(stored.series_path, "");
    assert_eq!(stored.language, "en");
}

#[test]
fn a_stored_configuration_that_cannot_be_read_is_refused() {
    assert_eq!(
        Configuration::from_stored("", "en", "Etc/UTC", "metric"),
        Err(Error::ParseUnitsError)
    );
    assert_eq!(
        Configuration::from_stored("", "en", "Nowhere/Land", "SI"),
        Err(Error::IOError(String::from("unknown time zone")))
    );
    assert_eq!(
        Configuration::from_stored("", "???", "Etc/UTC", "SI"),
        Err(Error::IOError(String::from("language strings")))
    );
    assert_eq!(
        Configuration::from_stored("", "???", "Nowhere/Land", "metric"),
        Err(Error::IOError(String::from("language strings")))
    );
}

#[test]
fn settings_follow_the_configuration_and_each_setter_changes_one_thing() {
    let config = Configuration::from_stored("", "eo", "America/Chicago", "USA").unwrap();
    assert!(Text::supports_language(&config.language));
    let mut settings = Settings::from_config(&config);
    assert_eq!(settings.units, UnitSystem::USA);
    assert_eq!(settings.timezone.name(), "America/Chicago");
    assert_eq!(settings.text.language_id().get_language(), "eo");

    settings.set_units(UnitSystem::SI);
    assert_eq!(settings.units, UnitSystem::SI);
    assert_eq!(settings.timezone.name(), "America/Chicago");

    settings.set_timezone(Timezone::utc());
    assert_eq!(settings.timezone.name(), "Etc/UTC");
    assert_eq!(settings.text.language_id().get_language(), "eo");

    settings.set_language(LanguageId::english());
    assert_eq!(settings.text.language_id().get_language(), "en");
    assert_eq!(settings.units, UnitSystem::SI);
    assert_eq!(settings.clone(), settings);
}

#[test]
fn only_english_and_esperanto_have_words() {
    assert!(Text::supports_language(&LanguageId::parse("en").unwrap()));
    assert!(Text::supports_language(&LanguageId::parse("en-US").unwrap()));
    assert!(Text::supports_language(&LanguageId::parse("eo").unwrap()));
    assert!(!Text::supports_language(&LanguageId::parse("fr").unwrap()));
    assert!(!Text::supports_language(&LanguageId::parse("de-AT").unwrap()));
}
