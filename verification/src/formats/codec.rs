//! The codec framework: a value, the text a person edits it as, and the way
//! back from text to value.
use crate::errors::Error;
use crate::formats::duration::{duration_of_text, duration_text, lemma_duration_round_trip};
use crate::formats::Duration;
use crate::formats::hours_minutes::{clock_text, time_at, ClockTime, HoursMinutes};
use crate::formats::numerals::nat_digits;
use crate::formats::steps::{lemma_steps_round_trip, parse_steps, render_steps, steps_of_text};
use crate::i18n::units::{
    distance_of_text, lemma_quantity_round_trip, lemma_unit_system_round_trip, mass_of_text,
    quantity_text, DISTANCE_PLACES, MASS_PLACES,
    unit_system_of_text,
};
use crate::i18n::UnitSystem;
use crate::si::{Kilogram, Meter, Second};
use vstd::prelude::*;

verus! {

/// A pair of functions between the values of a type and their text: `render`
/// writes a value, `parse` reads one and fails with the codec's own error on
/// text outside its grammar. Reading undoes writing on every value that its
/// text shows exactly.
pub trait Codec {
    /// The type of the values.
    type Value;

    /// The text of a value.
    spec fn text(&self, value: Self::Value) -> Seq<char>;

    /// The value that a text stands for, or `None` for text outside the
    /// grammar.
    spec fn reading(&self, s: Seq<char>) -> Option<Self::Value>;

    /// The error with which reading fails.
    spec fn failure(&self) -> Error;

    /// True of the values that their text shows exactly: those that are
    /// already rounded to what the text can hold.
    spec fn exact(&self, value: Self::Value) -> bool;

    /// Writes a value. This never fails.
    fn render(&self, value: &Self::Value) -> (text: String)
        ensures
            text@ == self.text(*value),
    ;

    /// Reads a value. The result is the value the text stands for, or the
    /// codec's error for text outside the grammar; and the text of every
    /// exact value is read as that value.
    fn parse(&self, s: &str) -> (r: Result<Self::Value, Error>)
        ensures
            r == (match self.reading(s@) {
                Some(value) => Ok::<Self::Value, Error>(value),
                None => Err(self.failure()),
            }),
            forall|value: Self::Value|
                self.exact(value) && s@ == #[trigger] self.text(value) ==> r == Ok::<
                    Self::Value,
                    Error,
                >(value),
    ;
}

/// Masses, in kilograms or pounds as the unit system says, with two
/// decimals.
pub struct MassCodec {
    pub units: UnitSystem,
}

/// Distances, in kilometres or miles as the unit system says, with two
/// decimals.
pub struct DistanceCodec {
    pub units: UnitSystem,
}

/// A distance that may be missing: an empty text stands for none.
pub struct DistanceField {
    pub units: UnitSystem,
}

/// Durations as `S`, `M:S` or `H:M:S`, written in whole seconds.
pub struct DurationCodec;

/// A duration that may be missing: an empty text stands for none.
pub struct DurationField;

/// Times of day as `HH:MM`, written in whole minutes.
pub struct ClockCodec;

/// Step counts: plain non-negative integers.
pub struct StepsCodec;

/// Unit systems by name.
pub struct UnitsCodec;

impl Codec for MassCodec {
    type Value = Kilogram;

    open spec fn text(&self, value: Kilogram) -> Seq<char> {
        quantity_text(value.units as nat, self.units.mass_step())
    }

    open spec fn reading(&self, s: Seq<char>) -> Option<Kilogram> {
        match mass_of_text(s, self.units.mass_step()) {
            Some(units) => Some(Kilogram { units }),
            None => None,
        }
    }

    open spec fn failure(&self) -> Error {
        Error::ParseMassError
    }

    /// A whole number of hundredths of the unit on show.
    open spec fn exact(&self, value: Kilogram) -> bool {
        value.units as nat % self.units.mass_step() == 0
    }

    fn render(&self, value: &Kilogram) -> (text: String) {
        self.units.render_mass(*value)
    }

    fn parse(&self, s: &str) -> (r: Result<Kilogram, Error>) {
        proof {
            assert forall|value: Kilogram| self.exact(value) && s@ == #[trigger] self.text(
                value,
            ) implies self.reading(s@) == Some(value) by {
                lemma_quantity_round_trip(value.units, self.units.mass_step() as u64, MASS_PLACES as nat);
            }
        }
        self.units.parse_mass(s)
    }
}

impl Codec for DistanceCodec {
    type Value = Meter;

    open spec fn text(&self, value: Meter) -> Seq<char> {
        quantity_text(value.units as nat, self.units.distance_step())
    }

    open spec fn reading(&self, s: Seq<char>) -> Option<Meter> {
        match distance_of_text(s, self.units.distance_step()) {
            Some(units) => Some(Meter { units }),
            None => None,
        }
    }

    open spec fn failure(&self) -> Error {
        Error::ParseDistanceError
    }

    /// A whole number of hundredths of the unit on show.
    open spec fn exact(&self, value: Meter) -> bool {
        value.units as nat % self.units.distance_step() == 0
    }

    fn render(&self, value: &Meter) -> (text: String) {
        self.units.render_distance(*value)
    }

    fn parse(&self, s: &str) -> (r: Result<Meter, Error>) {
        proof {
            assert forall|value: Meter| self.exact(value) && s@ == #[trigger] self.text(
                value,
            ) implies self.reading(s@) == Some(value) by {
                lemma_quantity_round_trip(value.units, self.units.distance_step() as u64, DISTANCE_PLACES as nat);
            }
        }
        self.units.parse_distance(s)
    }
}

impl Codec for DistanceField {
    type Value = Option<Meter>;

    open spec fn text(&self, value: Option<Meter>) -> Seq<char> {
        match value {
            Some(d) => quantity_text(d.units as nat, self.units.distance_step()),
            None => Seq::<char>::empty(),
        }
    }

    open spec fn reading(&self, s: Seq<char>) -> Option<Option<Meter>> {
        if s.len() == 0 {
            Some(None)
        } else {
            match distance_of_text(s, self.units.distance_step()) {
                Some(units) => Some(Some(Meter { units })),
                None => None,
            }
        }
    }

    open spec fn failure(&self) -> Error {
        Error::ParseDistanceError
    }

    /// No distance, or a whole number of hundredths of the unit on show.
    open spec fn exact(&self, value: Option<Meter>) -> bool {
        match value {
            Some(d) => d.units as nat % self.units.distance_step() == 0,
            None => true,
        }
    }

    fn render(&self, value: &Option<Meter>) -> (text: String) {
        match value {
            Some(d) => self.units.render_distance(*d),
            None => String::new(),
        }
    }

    fn parse(&self, s: &str) -> (r: Result<Option<Meter>, Error>) {
        proof {
            assert forall|value: Option<Meter>| self.exact(value) && s@ == #[trigger] self.text(
                value,
            ) implies self.reading(s@) == Some(value) by {
                if let Some(d) = value {
                    lemma_quantity_round_trip(d.units, self.units.distance_step() as u64, DISTANCE_PLACES as nat);
                }
            }
        }
        if s.unicode_len() == 0 {
            Ok(None)
        } else {
            match self.units.parse_distance(s) {
                Ok(d) => Ok(Some(d)),
                Err(e) => Err(e),
            }
        }
    }
}

impl Codec for DurationCodec {
    type Value = Second;

    open spec fn text(&self, value: Second) -> Seq<char> {
        duration_text(value.units as nat)
    }

    open spec fn reading(&self, s: Seq<char>) -> Option<Second> {
        match duration_of_text(s) {
            Some(units) => Some(Second { units }),
            None => None,
        }
    }

    open spec fn failure(&self) -> Error {
        Error::ParseDurationError
    }

    /// A whole number of seconds.
    open spec fn exact(&self, value: Second) -> bool {
        value.units % 1000 == 0
    }

    fn render(&self, value: &Second) -> (text: String) {
        Duration::new(*value).render()
    }

    fn parse(&self, s: &str) -> (r: Result<Second, Error>) {
        proof {
            assert forall|value: Second| self.exact(value) && s@ == #[trigger] self.text(
                value,
            ) implies self.reading(s@) == Some(value) by {
                lemma_duration_round_trip(value.units);
            }
        }
        match Duration::try_from(s) {
            Ok(d) => Ok(d.extract()),
            Err(e) => Err(e),
        }
    }
}

impl Codec for DurationField {
    type Value = Option<Second>;

    open spec fn text(&self, value: Option<Second>) -> Seq<char> {
        match value {
            Some(d) => duration_text(d.units as nat),
            None => Seq::<char>::empty(),
        }
    }

    open spec fn reading(&self, s: Seq<char>) -> Option<Option<Second>> {
        if s.len() == 0 {
            Some(None)
        } else {
            match duration_of_text(s) {
                Some(units) => Some(Some(Second { units })),
                None => None,
            }
        }
    }

    open spec fn failure(&self) -> Error {
        Error::ParseDurationError
    }

    /// No duration, or a whole number of seconds.
    open spec fn exact(&self, value: Option<Second>) -> bool {
        match value {
            Some(d) => d.units % 1000 == 0,
            None => true,
        }
    }

    fn render(&self, value: &Option<Second>) -> (text: String) {
        match value {
            Some(d) => Duration::new(*d).render(),
            None => String::new(),
        }
    }

    fn parse(&self, s: &str) -> (r: Result<Option<Second>, Error>) {
        proof {
            assert forall|value: Option<Second>| self.exact(value) && s@ == #[trigger] self.text(
                value,
            ) implies self.reading(s@) == Some(value) by {
                if let Some(d) = value {
                    lemma_duration_round_trip(d.units);
                }
            }
        }
        if s.unicode_len() > 0 {
            match Duration::try_from(s) {
                Ok(d) => Ok(Some(d.extract())),
                Err(e) => Err(e),
            }
        } else {
            Ok(None)
        }
    }
}

impl Codec for ClockCodec {
    type Value = ClockTime;

    open spec fn text(&self, value: ClockTime) -> Seq<char> {
        clock_text(value@.0, value@.1)
    }

    open spec fn reading(&self, s: Seq<char>) -> Option<ClockTime> {
        time_at(s)
    }

    open spec fn failure(&self) -> Error {
        Error::ParseTimeError
    }

    /// A time of day at a whole minute.
    open spec fn exact(&self, value: ClockTime) -> bool {
        value@.0 < 24 && value@.1 < 60 && value@.2 == 0
    }

    fn render(&self, value: &ClockTime) -> (text: String) {
        HoursMinutes::new(*value).render()
    }

    fn parse(&self, s: &str) -> (r: Result<ClockTime, Error>) {
        match HoursMinutes::try_from(s) {
            Ok(hm) => Ok(hm.extract()),
            Err(e) => Err(e),
        }
    }
}

impl Codec for StepsCodec {
    type Value = u32;

    open spec fn text(&self, value: u32) -> Seq<char> {
        nat_digits(value as nat)
    }

    open spec fn reading(&self, s: Seq<char>) -> Option<u32> {
        steps_of_text(s)
    }

    open spec fn failure(&self) -> Error {
        Error::ParseStepsError
    }

    /// Every step count.
    open spec fn exact(&self, value: u32) -> bool {
        true
    }

    fn render(&self, value: &u32) -> (text: String) {
        render_steps(*value)
    }

    fn parse(&self, s: &str) -> (r: Result<u32, Error>) {
        proof {
            assert forall|value: u32| self.exact(value) && s@ == #[trigger] self.text(
                value,
            ) implies self.reading(s@) == Some(value) by {
                lemma_steps_round_trip(value);
            }
        }
        parse_steps(s)
    }
}

impl Codec for UnitsCodec {
    type Value = UnitSystem;

    open spec fn text(&self, value: UnitSystem) -> Seq<char> {
        value.name_text()
    }

    open spec fn reading(&self, s: Seq<char>) -> Option<UnitSystem> {
        unit_system_of_text(s)
    }

    open spec fn failure(&self) -> Error {
        Error::ParseUnitsError
    }

    /// Every unit system.
    open spec fn exact(&self, value: UnitSystem) -> bool {
        true
    }

    fn render(&self, value: &UnitSystem) -> (text: String) {
        value.name()
    }

    fn parse(&self, s: &str) -> (r: Result<UnitSystem, Error>) {
        proof {
            assert forall|value: UnitSystem| self.exact(value) && s@ == #[trigger] self.text(
                value,
            ) implies self.reading(s@) == Some(value) by {
                lemma_unit_system_round_trip(value);
            }
        }
        UnitSystem::try_from(s)
    }
}

} // verus!
