//! The settings that outlive a session: where the series is kept, and the
//! language, time zone and units of the user.
use crate::dates::Timezone;
use crate::errors::Error;
use crate::i18n::UnitSystem;
use unic_langid::LanguageIdentifier;
use vstd::prelude::*;
use vstd::string::StringExecFns;

verus! {

/// The language subtag that `unic_langid` reads in a language identifier
/// such as `en-US`, or `None` where it rejects the text.
pub uninterp spec fn language_of_tag(tag: Seq<char>) -> Option<Seq<char>>;

/// Reads a language identifier with `unic_langid::LanguageIdentifier::from_str`
/// and hands back its language subtag (`get_language`). Trusted: the result
/// is the subtag that the parser reads, and the text `en` is read as the
/// language `en`.
#[verifier::external_body]
fn read_language(tag: &str) -> (r: Option<String>)
    ensures
        language_of_tag(tag@) == (match r {
            Some(subtag) => Some(subtag@),
            None => None,
        }),
        tag@ == seq!['e', 'n'] ==> r is Some,
        r matches Some(subtag) ==> (tag@ == seq!['e', 'n'] ==> subtag@ == tag@),
{
    match tag.parse::<LanguageIdentifier>() {
        Ok(id) => Some(id.get_language().to_string()),
        Err(_) => None,
    }
}

/// A language identifier, held as the text it was read from together with
/// its language subtag.
#[derive(Debug, PartialEq, Eq)]
pub struct LanguageId {
    tag: String,
    language: String,
}

impl LanguageId {
    #[verifier::type_invariant]
    spec fn valid(self) -> bool {
        language_of_tag(self.tag@) == Some(self.language@)
    }

    /// The text that the identifier was read from.
    pub closed spec fn tag_text(self) -> Seq<char> {
        self.tag@
    }

    /// The language subtag, such as `en`.
    pub closed spec fn language_text(self) -> Seq<char> {
        self.language@
    }

    /// Reads a language identifier; `None` for text that is none. The text
    /// `en` is the identifier of the language `en`.
    pub fn parse(tag: &str) -> (id: Option<LanguageId>)
        ensures
            id is Some <==> language_of_tag(tag@) is Some,
            id matches Some(l) ==> l.tag_text() == tag@ && Some(l.language_text())
                == language_of_tag(tag@),
            tag@ == seq!['e', 'n'] ==> (id matches Some(l) && l.language_text() == tag@),
    {
        match read_language(tag) {
            Some(language) => Some(LanguageId { tag: String::from_str(tag), language }),
            None => None,
        }
    }

    /// English, `en`.
    pub fn english() -> (id: LanguageId)
        ensures
            id.tag_text() == seq!['e', 'n'],
            id.language_text() == seq!['e', 'n'],
    {
        proof {
            reveal_strlit("en");
            assert("en"@ =~= seq!['e', 'n']);
        }
        match LanguageId::parse("en") {
            Some(id) => id,
            None => unreached(),
        }
    }

    /// The text that the identifier was read from.
    pub fn tag(&self) -> (tag: &str)
        ensures
            tag@ == self.tag_text(),
    {
        self.tag.as_str()
    }

    /// The language subtag, which is what a stored configuration keeps.
    pub fn get_language(&self) -> (language: &str)
        ensures
            language@ == self.language_text(),
            language_of_tag(self.tag_text()) == Some(language@),
    {
        proof {
            use_type_invariant(self);
        }
        self.language.as_str()
    }
}

impl Clone for LanguageId {
    fn clone(&self) -> (copy: LanguageId)
        ensures
            copy == *self,
    {
        proof {
            use_type_invariant(self);
        }
        LanguageId { tag: self.tag.clone(), language: self.language.clone() }
    }
}

/// The stored settings.
#[derive(Clone, Debug, PartialEq)]
pub struct Configuration {
    /// Where the series is kept, once the user has said so.
    pub series_path: Option<String>,
    pub language: LanguageId,
    pub timezone: Timezone,
    pub units: UnitSystem,
}

/// The four texts under which a configuration is stored.
pub struct StoredSettings {
    /// The path of the series, empty where none is set.
    pub series_path: String,
    /// The language subtag.
    pub language: String,
    /// The name of the time zone.
    pub timezone: String,
    /// The name of the unit system.
    pub units: String,
}

impl Configuration {
    /// The settings of a first start: no series, English, UTC, SI units.
    pub fn fallback() -> (config: Configuration)
        ensures
            config.series_path is None,
            config.language.language_text() == seq!['e', 'n'],
            config.timezone@ == seq!['E', 't', 'c', '/', 'U', 'T', 'C'],
            config.units == UnitSystem::SI,
    {
        Configuration {
            series_path: None,
            language: LanguageId::english(),
            timezone: Timezone::utc(),
            units: UnitSystem::SI,
        }
    }

    /// The configuration that four stored texts stand for. An empty path
    /// means that no series is set. Fails with an `IOError` on a language
    /// that cannot be read, else with one on an unknown time zone, else with
    /// `ParseUnitsError` on an unknown unit system.
    pub fn from_stored(series_path: &str, language: &str, timezone: &str, units: &str) -> (r:
        Result<Configuration, Error>)
        ensures
            r is Ok <==> language_of_tag(language@) is Some && crate::dates::zone_known(timezone@)
                && crate::i18n::units::unit_system_of_text(units@) is Some,
            r matches Ok(config) ==> {
                &&& config.series_path is Some <==> series_path@.len() > 0
                &&& config.series_path matches Some(path) ==> path@ == series_path@
                &&& config.language.tag_text() == language@
                &&& config.timezone@ == timezone@
                &&& Some(config.units) == crate::i18n::units::unit_system_of_text(units@)
            },
            r matches Err(e) ==> (if language_of_tag(language@) is None {
                e matches Error::IOError(why) && why@ == "language strings"@
            } else if !crate::dates::zone_known(timezone@) {
                e matches Error::IOError(why) && why@ == "unknown time zone"@
            } else {
                e == Error::ParseUnitsError
            }),
    {
        let language = match LanguageId::parse(language) {
            Some(id) => id,
            None => {
                return Err(Error::IOError(String::from_str("language strings")));
            },
        };
        let timezone = match Timezone::parse(timezone) {
            Some(zone) => zone,
            None => {
                return Err(Error::IOError(String::from_str("unknown time zone")));
            },
        };
        let units = match UnitSystem::try_from(units) {
            Ok(units) => units,
            Err(e) => {
                return Err(e);
            },
        };
        let series_path = if series_path.unicode_len() == 0 {
            None
        } else {
            Some(String::from_str(series_path))
        };
        Ok(Configuration { series_path, language, timezone, units })
    }

    /// The four texts under which this configuration is stored.
    pub fn to_stored(&self) -> (stored: StoredSettings)
        ensures
            stored.series_path@ == (match self.series_path {
                Some(path) => path@,
                None => Seq::<char>::empty(),
            }),
            stored.language@ == self.language.language_text(),
            stored.timezone@ == self.timezone@,
            stored.units@ == self.units.name_text(),
    {
        let series_path = match &self.series_path {
            Some(path) => path.clone(),
            None => String::new(),
        };
        StoredSettings {
            series_path,
            language: String::from_str(self.language.get_language()),
            timezone: String::from_str(self.timezone.name()),
            units: self.units.name(),
        }
    }
}

} // verus!
