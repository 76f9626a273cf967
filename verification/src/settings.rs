//! The settings in force: time zone, units, and the words of the interface.
use crate::config::{Configuration, LanguageId};
use crate::dates::Timezone;
use crate::i18n::{Text, UnitSystem};
use vstd::prelude::*;

verus! {

/// The settings in force. The words always belong to the language that was
/// set last: setting a language makes them anew.
#[derive(Debug, PartialEq)]
pub struct Settings {
    pub timezone: Timezone,
    pub units: UnitSystem,
    pub text: Text,
}

impl Settings {
    /// Settings with the words of `langid`.
    pub fn new(langid: LanguageId, units: UnitSystem, timezone: Timezone) -> (settings: Settings)
        requires
            Text::supports(langid),
        ensures
            settings.text.language_of() == langid,
            settings.units == units,
            settings.timezone == timezone,
    {
        let text = Text::new(langid);
        Settings { timezone, units, text }
    }

    /// The settings that a stored configuration asks for.
    pub fn from_config(config: &Configuration) -> (settings: Settings)
        requires
            Text::supports(config.language),
        ensures
            settings.text.language_of() == config.language,
            settings.units == config.units,
            settings.timezone == config.timezone,
    {
        Settings::new(config.language.clone(), config.units, config.timezone.clone())
    }

    /// Changes the language: the words are made anew for it.
    pub fn set_language(&mut self, language: LanguageId)
        requires
            Text::supports(language),
        ensures
            final(self).text.language_of() == language,
            final(self).units == old(self).units,
            final(self).timezone == old(self).timezone,
    {
        self.text = Text::new(language);
    }

    /// Changes the unit system.
    pub fn set_units(&mut self, units: UnitSystem)
        ensures
            final(self).units == units,
            final(self).text == old(self).text,
            final(self).timezone == old(self).timezone,
    {
        self.units = units;
    }

    /// Changes the time zone.
    pub fn set_timezone(&mut self, timezone: Timezone)
        ensures
            final(self).timezone == timezone,
            final(self).text == old(self).text,
            final(self).units == old(self).units,
    {
        self.timezone = timezone;
    }
}

impl Clone for Settings {
    fn clone(&self) -> (copy: Settings)
        ensures
            copy == *self,
    {
        Settings { timezone: self.timezone.clone(), units: self.units, text: self.text.clone() }
    }
}

} // verus!
