//! The words of the interface, in the language of the user.
use crate::config::LanguageId;
use crate::formats::numerals::{nat_digits, push_nat};
use crate::i18n::units::{quantity_text, UnitSystem};
use crate::si::Kilogram;
use crate::strings::same_text;
use crate::trax::timedistance::ActivityType;
use fluent::{FluentArgs, FluentBundle, FluentResource, FluentValue};
use unic_langid::LanguageIdentifier;
use vstd::prelude::*;
use vstd::string::StringExecFns;

verus! {

/// The words of the interface in English, in Fluent syntax.
pub const ENGLISH_STRINGS: &'static str = "
about = About
activity = Activity
add-time-distance-workout = Add Time/Distance Workout
cancel = Cancel
cycling = Cycling
database-path = Database Path
dependencies = Dependencies
  chrono-tz 0.4, MIT/Apache-2.0, Djzin
  chrono 0.4, MIT/Apache-2.0, Brandon W. Maister, Kang Seonghoon
  dimensioned 0.7.0, MIT/Apache-2.0, Paho Lurie-Gregg
  emseries 0.5.0, BSD-3-Clause, Savanni D'Gerine
  fluent 0.9.1, Apache-2.0/MIT, Staś Małolepszy, Zibi Braniecki
  gio, MIT, The Gtk-rs Project Developers
  glib 0.9.0, MIT, The Gtk-rs Project Developers
  gtk 0.8.0, MIT, The Gtk-rs Project Developers
  serde 1, MIT/Apache-2.0, David Tolnay, Erick Tryzelaar
  serde_yaml, MIT/Apache-2.0, David Tolnay
  tzdata 0.4.1, MIT, Maxime Lenoir
  unic-langid 0.7.1, MIT/Apache-2.0, Zibi Braniecki
edit = Edit
enter-distance = Enter distance
enter-duration = Enter duration
enter-time = Enter time
health-tracker = Health Tracker
history = History
language = Language
license = Copyright Savanni D'Gerinel (c) 2018-2020
  All rights reserved.

  Redistribution and use in source and binary forms, with or without
  modification, are permitted provided that the following conditions are met:

  - Redistributions of source code must retain the above copyright
    notice, this list of conditions and the following disclaimer.

  - Redistributions in binary form must reproduce the above
    copyright notice, this list of conditions and the following
    disclaimer in the documentation and/or other materials provided
    with the distribution.

  - Neither the name of Savanni D'Gerinel nor the names of other
    contributors may be used to endorse or promote products derived
    from this software without specific prior written permission.

  THIS SOFTWARE IS PROVIDED BY THE COPYRIGHT HOLDERS AND CONTRIBUTORS
  \"AS IS\" AND ANY EXPRESS OR IMPLIED WARRANTIES, INCLUDING, BUT NOT
  LIMITED TO, THE IMPLIED WARRANTIES OF MERCHANTABILITY AND FITNESS FOR
  A PARTICULAR PURPOSE ARE DISCLAIMED. IN NO EVENT SHALL THE COPYRIGHT
  OWNER OR CONTRIBUTORS BE LIABLE FOR ANY DIRECT, INDIRECT, INCIDENTAL,
  SPECIAL, EXEMPLARY, OR CONSEQUENTIAL DAMAGES (INCLUDING, BUT NOT
  LIMITED TO, PROCUREMENT OF SUBSTITUTE GOODS OR SERVICES; LOSS OF USE,
  DATA, OR PROFITS; OR BUSINESS INTERRUPTION) HOWEVER CAUSED AND ON ANY
  THEORY OF LIABILITY, WHETHER IN CONTRACT, STRICT LIABILITY, OR TORT
  (INCLUDING NEGLIGENCE OR OTHERWISE) ARISING IN ANY WAY OUT OF THE USE
  OF THIS SOFTWARE, EVEN IF ADVISED OF THE POSSIBILITY OF SUCH DAMAGE.
mass = {$units ->
    *[SI] {$value} kilograms
    [USA] {$value} pounds
}
mass-label = {$units ->
    *[SI] kilograms
    [USA] pounds
}
name-with-version = FitnessTrax, version 0.1
preferences = Preferences
pushups = Pushups
rowing = Rowing
running = Running
save = Save
situps = Situps
steps = Steps
step-count = {$count ->
    [one] 1 step
    *[other] {$count} steps
}
swimming = Swimming
timezone = Timezone
units = Units
walking = Walking
weight = Weight
";

/// The words of the interface in Esperanto, in Fluent syntax. What
/// is missing here is said in English.
pub const ESPERANTO_STRINGS: &'static str = "
about = Pri
add-time-distance-workout = Aldonu Trejnadon de Daŭro/Distanco
cancel = Nuligi
cycling = Biciklado
database-path = Vojo al Datumbazo
edit = Redaktu
enter-distance = Eniru distanco
enter-duration = Eniru daŭro
enter-time = Eniru tempon
health-tracker = Sana Supuristo
history = Historio
language = Lingvo
mass = {$units ->
    *[SI] {$value} kilogramoj
    [USA] {$value} funtoj
}
mass-label = {$units ->
    *[SI] kilogramoj
    [USA] funtoj
}
preferences = Agdoroj
pushups = Supraj Puŝoj
rowing = Remado
running = Kurado
save = Ŝpari
situps = Sidiĝoj
steps = Paŝoj
step-count = {$count ->
    [one] 1 paŝo
    *[other] {$count} paŝoj
}
swimming = Naĝado
timezone = Horzono
units = Unuoj
walking = Promenadi
weight = Pezo
";

/// What `fluent` makes of the message `id`: the text of its pattern, formatted
/// with the arguments `args` (each a name and a value), from a bundle for the
/// languages `language` and `fallback_language` that holds the resources
/// `primary` and `fallback`, in that order. `None` where a language or a
/// resource cannot be read or the message is missing or has no value.
pub uninterp spec fn message_text(
    language: Seq<char>,
    fallback_language: Seq<char>,
    primary: Seq<char>,
    fallback: Seq<char>,
    id: Seq<char>,
    args: Seq<(Seq<char>, Seq<char>)>,
) -> Option<Seq<char>>;

/// Formats a message with `fluent`: a `FluentBundle` for the two languages,
/// the two resources added with `add_resource`, the message found with
/// `get_message` and its value formatted with `format_pattern`. An argument
/// whose value reads as a number is handed over as a number
/// (`FluentValue::into_number`). Trusted: the result is what those calls give.
#[verifier::external_body]
fn format_message(
    language: &str,
    fallback_language: &str,
    primary: &str,
    fallback: &str,
    id: &str,
    args: &Vec<(String, String)>,
) -> (r: Option<String>)
    ensures
        message_text(language@, fallback_language@, primary@, fallback@, id@, args.deep_view())
            == (match r {
            Some(text) => Some(text@),
            None => None,
        }),
{
    let first: LanguageIdentifier = language.parse().ok()?;
    let second: LanguageIdentifier = fallback_language.parse().ok()?;
    let mut bundle = FluentBundle::new(&[first, second]);
    let _ = bundle.add_resource(FluentResource::try_new(primary.to_string()).ok()?);
    let _ = bundle.add_resource(FluentResource::try_new(fallback.to_string()).ok()?);
    let values: FluentArgs =
        args.iter().map(|pair| (pair.0.as_str(), FluentValue::into_number(&pair.1))).collect();
    let pattern = bundle.get_message(id)?.value?;
    let mut errors = vec![];
    Some(bundle.format_pattern(pattern, Some(&values), &mut errors).to_string())
}

/// The words of the interface in one language.
#[derive(Debug, PartialEq)]
pub struct Text {
    language: LanguageId,
}

/// The text inside, if there is one.
pub open spec fn text_of(r: Option<String>) -> Option<Seq<char>> {
    match r {
        Some(text) => Some(text@),
        None => None,
    }
}

impl Text {
    /// True of the languages that the interface has words in: English (`en`)
    /// and Esperanto (`eo`).
    pub open spec fn supports(language: LanguageId) -> bool {
        language.language_text() == "en"@ || language.language_text() == "eo"@
    }

    /// The language of these words.
    pub closed spec fn language_of(self) -> LanguageId {
        self.language
    }

    /// The resource that holds the words of this language.
    pub open spec fn strings(self) -> Seq<char> {
        if self.language_of().language_text() == "eo"@ {
            ESPERANTO_STRINGS@
        } else {
            ENGLISH_STRINGS@
        }
    }

    /// The message `id` in this language, formatted with `args`; where this
    /// language lacks it, the English one.
    pub open spec fn phrase(self, id: Seq<char>, args: Seq<(Seq<char>, Seq<char>)>) -> Option<
        Seq<char>,
    > {
        message_text(
            self.language_of().tag_text(),
            "en"@,
            self.strings(),
            ENGLISH_STRINGS@,
            id,
            args,
        )
    }

    /// Whether the interface has words in this language.
    pub fn supports_language(language: &LanguageId) -> (yes: bool)
        ensures
            yes == Text::supports(*language),
    {
        same_text(language.get_language(), "en") || same_text(language.get_language(), "eo")
    }

    /// The words of the interface in the language of `langid`.
    pub fn new(langid: LanguageId) -> (text: Text)
        requires
            Text::supports(langid),
        ensures
            text.language_of() == langid,
    {
        Text { language: langid }
    }

    /// The language of these words.
    pub fn language_id(&self) -> (id: &LanguageId)
        ensures
            *id == self.language_of(),
    {
        &self.language
    }

    /// The message `id`, formatted with `args`, each a name and a value;
    /// `None` where there is no such message.
    pub fn tr(&self, id: &str, args: &Vec<(String, String)>) -> (r: Option<String>)
        ensures
            text_of(r) == self.phrase(id@, args.deep_view()),
    {
        let strings = if same_text(self.language.get_language(), "eo") {
            ESPERANTO_STRINGS
        } else {
            ENGLISH_STRINGS
        };
        format_message(self.language.tag(), "en", strings, ENGLISH_STRINGS, id, args)
    }

    /// The message `id`, which takes no arguments.
    pub fn plain(&self, id: &str) -> (r: Option<String>)
        ensures
            text_of(r) == self.phrase(id@, Seq::empty()),
    {
        let args: Vec<(String, String)> = Vec::new();
        assert(args.deep_view() =~= Seq::empty());
        self.tr(id, &args)
    }

    /// The label of the page about the program.
    pub fn about(&self) -> (r: Option<String>)
        ensures
            text_of(r) == self.phrase("about"@, Seq::empty()),
    {
        self.plain("about")
    }

    /// The label of the activity menu.
    pub fn activity(&self) -> (r: Option<String>)
        ensures
            text_of(r) == self.phrase("activity"@, Seq::empty()),
    {
        self.plain("activity")
    }

    /// The label of the button that adds a workout.
    pub fn add_time_distance_workout(&self) -> (r: Option<String>)
        ensures
            text_of(r) == self.phrase("add-time-distance-workout"@, Seq::empty()),
    {
        self.plain("add-time-distance-workout")
    }

    /// The label of the button that drops an edit.
    pub fn cancel(&self) -> (r: Option<String>)
        ensures
            text_of(r) == self.phrase("cancel"@, Seq::empty()),
    {
        self.plain("cancel")
    }

    /// The name of cycling.
    pub fn cycling(&self) -> (r: Option<String>)
        ensures
            text_of(r) == self.phrase("cycling"@, Seq::empty()),
    {
        self.plain("cycling")
    }

    /// The label of the field for the path of the series.
    pub fn database_path(&self) -> (r: Option<String>)
        ensures
            text_of(r) == self.phrase("database-path"@, Seq::empty()),
    {
        self.plain("database-path")
    }

    /// The list of the libraries the program is built on.
    pub fn dependencies(&self) -> (r: Option<String>)
        ensures
            text_of(r) == self.phrase("dependencies"@, Seq::empty()),
    {
        self.plain("dependencies")
    }

    /// The label of the button that starts an edit.
    pub fn edit(&self) -> (r: Option<String>)
        ensures
            text_of(r) == self.phrase("edit"@, Seq::empty()),
    {
        self.plain("edit")
    }

    /// The label of the history page.
    pub fn history(&self) -> (r: Option<String>)
        ensures
            text_of(r) == self.phrase("history"@, Seq::empty()),
    {
        self.plain("history")
    }

    /// The label of the language menu.
    pub fn language(&self) -> (r: Option<String>)
        ensures
            text_of(r) == self.phrase("language"@, Seq::empty()),
    {
        self.plain("language")
    }

    /// The license of the program.
    pub fn license(&self) -> (r: Option<String>)
        ensures
            text_of(r) == self.phrase("license"@, Seq::empty()),
    {
        self.plain("license")
    }

    /// The name of the unit of mass.
    pub fn mass_label(&self) -> (r: Option<String>)
        ensures
            text_of(r) == self.phrase("mass-label"@, Seq::empty()),
    {
        self.plain("mass-label")
    }

    /// The name and version of the program.
    pub fn name_with_version(&self) -> (r: Option<String>)
        ensures
            text_of(r) == self.phrase("name-with-version"@, Seq::empty()),
    {
        self.plain("name-with-version")
    }

    /// The label of the preferences page.
    pub fn preferences(&self) -> (r: Option<String>)
        ensures
            text_of(r) == self.phrase("preferences"@, Seq::empty()),
    {
        self.plain("preferences")
    }

    /// The name of rowing.
    pub fn rowing(&self) -> (r: Option<String>)
        ensures
            text_of(r) == self.phrase("rowing"@, Seq::empty()),
    {
        self.plain("rowing")
    }

    /// The name of running.
    pub fn running(&self) -> (r: Option<String>)
        ensures
            text_of(r) == self.phrase("running"@, Seq::empty()),
    {
        self.plain("running")
    }

    /// The label of the button that saves an edit.
    pub fn save(&self) -> (r: Option<String>)
        ensures
            text_of(r) == self.phrase("save"@, Seq::empty()),
    {
        self.plain("save")
    }

    /// The label of a step count.
    pub fn steps_label(&self) -> (r: Option<String>)
        ensures
            text_of(r) == self.phrase("steps"@, Seq::empty()),
    {
        self.plain("steps")
    }

    /// The name of swimming.
    pub fn swimming(&self) -> (r: Option<String>)
        ensures
            text_of(r) == self.phrase("swimming"@, Seq::empty()),
    {
        self.plain("swimming")
    }

    /// The label of the time zone menu.
    pub fn timezone(&self) -> (r: Option<String>)
        ensures
            text_of(r) == self.phrase("timezone"@, Seq::empty()),
    {
        self.plain("timezone")
    }

    /// The label of the units menu.
    pub fn units(&self) -> (r: Option<String>)
        ensures
            text_of(r) == self.phrase("units"@, Seq::empty()),
    {
        self.plain("units")
    }

    /// The name of walking.
    pub fn walking(&self) -> (r: Option<String>)
        ensures
            text_of(r) == self.phrase("walking"@, Seq::empty()),
    {
        self.plain("walking")
    }

    /// The arguments of the message for a mass: its number in the unit
    /// system, and the name of the system.
    pub open spec fn mass_args(value: Kilogram, units: UnitSystem) -> Seq<(Seq<char>, Seq<char>)> {
        seq![
            ("value"@, quantity_text(value.units as nat, units.mass_step())),
            ("units"@, units.name_text()),
        ]
    }

    /// A mass in words: the number in the unit system, then the name of
    /// its unit.
    pub fn mass(&self, value: Kilogram, units: &UnitSystem) -> (r: Option<String>)
        ensures
            text_of(r) == self.phrase("mass"@, Text::mass_args(value, *units)),
    {
        let mut args: Vec<(String, String)> = Vec::new();
        args.push((String::from_str("value"), units.render_mass(value)));
        args.push((String::from_str("units"), units.name()));
        assert(args.deep_view() =~= Text::mass_args(value, *units));
        self.tr("mass", &args)
    }

    /// The arguments of the message for a step count: the count.
    pub open spec fn count_args(count: u32) -> Seq<(Seq<char>, Seq<char>)> {
        seq![("count"@, nat_digits(count as nat))]
    }

    /// A step count in words, in the singular for one step.
    pub fn step_count(&self, count: u32) -> (r: Option<String>)
        ensures
            text_of(r) == self.phrase("step-count"@, Text::count_args(count)),
    {
        let mut number = String::new();
        push_nat(&mut number, count as u64);
        let mut args: Vec<(String, String)> = Vec::new();
        args.push((String::from_str("count"), number));
        assert(args.deep_view() =~= Text::count_args(count)) by {
            assert(number@ =~= nat_digits(count as nat));
        }
        self.tr("step-count", &args)
    }

    /// The message under which an activity is named.
    pub open spec fn activity_id(activity: ActivityType) -> Seq<char> {
        match activity {
            ActivityType::Cycling => "cycling"@,
            ActivityType::Rowing => "rowing"@,
            ActivityType::Running => "running"@,
            ActivityType::Swimming => "swimming"@,
            ActivityType::Walking => "walking"@,
        }
    }

    /// The name of an activity.
    pub fn time_distance_activity(&self, activity: &ActivityType) -> (r: Option<String>)
        ensures
            text_of(r) == self.phrase(Text::activity_id(*activity), Seq::empty()),
    {
        match activity {
            ActivityType::Cycling => self.plain("cycling"),
            ActivityType::Rowing => self.plain("rowing"),
            ActivityType::Running => self.plain("running"),
            ActivityType::Swimming => self.plain("swimming"),
            ActivityType::Walking => self.plain("walking"),
        }
    }
}

impl Clone for Text {
    fn clone(&self) -> (copy: Text)
        ensures
            copy == *self,
    {
        Text { language: self.language.clone() }
    }
}

} // verus!
