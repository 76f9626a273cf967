//! The application state controller.
//!
//! The controller owns the state of the application and decides what each
//! command changes and what observers are told. It does no waiting of its
//! own: whoever runs it opens the store, performs the store commands it
//! plans, runs the history query over the window it names, sends the
//! messages it returns and writes the configuration it derives.
use crate::config::{Configuration, LanguageId};
use crate::dates::{CalendarDate, Timestamp, Timezone};
use crate::errors::Error;
use crate::i18n::{Text, UnitSystem};
use crate::range::{DateRange, Range};
use crate::settings::Settings;
use crate::trax::TraxRecord;
use emseries::UniqueId;
use vstd::prelude::*;

verus! {

/// What observers are told after a change. Each message is a whole
/// snapshot of what changed, never a difference.
#[derive(Clone, Debug, PartialEq)]
pub enum Message {
    ChangeSeriesFile { range: DateRange, records: Vec<(UniqueId, TraxRecord)> },
    ChangeRange { range: DateRange, records: Vec<(UniqueId, TraxRecord)> },
    ChangeLanguage(Text),
    ChangeTimezone(Timezone),
    ChangeUnits(UnitSystem),
    RecordsUpdated(Vec<(UniqueId, TraxRecord)>),
}

/// A change to make in the record store.
#[derive(Clone, Debug, PartialEq)]
pub enum StoreCommand {
    /// Put this record in the place of the one with this identifier.
    Replace(UniqueId, TraxRecord),
    /// Add this record.
    Insert(TraxRecord),
}

/// The span of time that a history query covers: from `start` up to, and
/// not including, `end`.
#[derive(Clone, Debug, PartialEq)]
pub struct HistoryWindow {
    pub start: Timestamp,
    pub end: Timestamp,
}

/// The application before a series is open.
pub struct Unconfigured {
    pub settings: Settings,
    /// A path the configuration names that has not been opened.
    pub series_path: Option<String>,
}

/// The application with an open series; `trax` is the handle to the store.
pub struct Configured<T> {
    pub settings: Settings,
    pub series_path: String,
    pub trax: T,
    pub range: DateRange,
}

/// The state of the application. There is a handle to the record store
/// exactly when the state is `Configured`.
pub enum State<T> {
    Unconfigured(Unconfigured),
    Configured(Configured<T>),
}

/// The controller.
pub struct Application<T> {
    pub state: State<T>,
}

/// The range shown when a series is first opened: the seven days that end
/// with `today`.
pub open spec fn default_range(today: CalendarDate) -> DateRange {
    Range {
        start: CalendarDate {
            days: if today.days - 6 < i32::MIN {
                i32::MIN
            } else {
                (today.days - 6) as i32
            },
        },
        end: today,
    }
}

/// Each update as the command that puts it in the place of the record it names.
pub open spec fn replacements(updated: Seq<(UniqueId, TraxRecord)>) -> Seq<StoreCommand> {
    Seq::new(updated.len(), |i: int| StoreCommand::Replace(updated[i].0, updated[i].1))
}

/// Each new record as the command that adds it.
pub open spec fn insertions(new: Seq<TraxRecord>) -> Seq<StoreCommand> {
    Seq::new(new.len(), |i: int| StoreCommand::Insert(new[i]))
}

/// The store commands that saving asks for: every update as a replacement,
/// in order, then every new record as an insertion, in order.
pub open spec fn save_plan(
    updated: Seq<(UniqueId, TraxRecord)>,
    new: Seq<TraxRecord>,
) -> Seq<StoreCommand> {
    replacements(updated) + insertions(new)
}

/// What a history query ends in: the records found, or the store's failure
/// as a `TraxError`.
pub open spec fn history_outcome(
    found: Result<Vec<(UniqueId, TraxRecord)>, String>,
    r: Result<Vec<(UniqueId, TraxRecord)>, Error>,
) -> bool {
    match found {
        Ok(records) => r == Ok::<Vec<(UniqueId, TraxRecord)>, Error>(records),
        Err(why) => r == Err::<Vec<(UniqueId, TraxRecord)>, Error>(Error::TraxError(why)),
    }
}

/// Whether `window` is the window of a history query over `range` in `zone`:
/// from the beginning of the first day of the range to the beginning of the
/// day after its last, and `None` where one of the two instants does not
/// exist.
pub open spec fn is_window(range: DateRange, zone: Timezone, window: Option<HistoryWindow>) -> bool {
    let first = crate::dates::day_start(range.start.days as int, zone@);
    let last = crate::dates::day_start(range.end.days + 1, zone@);
    match window {
        Some(w) => {
            &&& range.end.days < i32::MAX
            &&& first == Some(w.start.seconds)
            &&& last == Some(w.end.seconds)
            &&& w.start.nanos == 0
            &&& w.end.nanos == 0
            &&& w.start.zone@ == zone@
            &&& w.end.zone@ == zone@
        },
        None => first is None || range.end.days == i32::MAX || last is None,
    }
}

/// The range with which a series opens: the seven days that end with `today`.
pub fn initial_range(today: CalendarDate) -> (range: DateRange)
    ensures
        range == default_range(today),
{
    let start = match today.plus_days(-6) {
        Some(date) => date,
        None => CalendarDate::new(i32::MIN),
    };
    Range::new(start, today)
}

impl<T> State<T> {
    /// The settings in force.
    pub open spec fn settings_of(self) -> Settings {
        match self {
            State::Unconfigured(state) => state.settings,
            State::Configured(state) => state.settings,
        }
    }

    /// The path of the series: the open one, or the one not yet opened.
    pub open spec fn path_of(self) -> Option<String> {
        match self {
            State::Unconfigured(state) => state.series_path,
            State::Configured(state) => Some(state.series_path),
        }
    }

    /// The path of the series: the open one, or the one not yet opened.
    pub fn series_path(&self) -> (path: Option<&String>)
        ensures
            path is Some <==> self.path_of() is Some,
            path matches Some(p) ==> Some(*p) == self.path_of(),
    {
        match self {
            State::Unconfigured(Unconfigured { series_path, .. }) => series_path.as_ref(),
            State::Configured(Configured { series_path, .. }) => Some(series_path),
        }
    }

    /// The settings in force.
    pub fn settings(&self) -> (settings: &Settings)
        ensures
            *settings == self.settings_of(),
    {
        match self {
            State::Unconfigured(Unconfigured { settings, .. }) => settings,
            State::Configured(Configured { settings, .. }) => settings,
        }
    }

    /// The words of the interface.
    pub fn text(&self) -> (text: &Text)
        ensures
            *text == self.settings_of().text,
    {
        &self.settings().text
    }

    /// The time zone in force.
    pub fn timezone(&self) -> (timezone: &Timezone)
        ensures
            *timezone == self.settings_of().timezone,
    {
        &self.settings().timezone
    }

    /// The unit system in force.
    pub fn units(&self) -> (units: &UnitSystem)
        ensures
            *units == self.settings_of().units,
    {
        &self.settings().units
    }

    /// This state with other settings and all else as it is.
    pub open spec fn with_settings(self, settings: Settings) -> State<T> {
        match self {
            State::Unconfigured(state) => State::Unconfigured(
                Unconfigured { settings, series_path: state.series_path },
            ),
            State::Configured(state) => State::Configured(
                Configured {
                    settings,
                    series_path: state.series_path,
                    trax: state.trax,
                    range: state.range,
                },
            ),
        }
    }

    /// Changes the language, whether a series is open or not.
    pub fn set_language(&mut self, language: LanguageId)
        requires
            Text::supports(language),
        ensures
            final(self).settings_of().text.language_of() == language,
            final(self).settings_of().units == old(self).settings_of().units,
            final(self).settings_of().timezone == old(self).settings_of().timezone,
            *final(self) == old(self).with_settings(final(self).settings_of()),
    {
        match self {
            State::Unconfigured(state) => state.settings.set_language(language),
            State::Configured(state) => state.settings.set_language(language),
        }
    }

    /// Changes the time zone, whether a series is open or not.
    pub fn set_timezone(&mut self, timezone: Timezone)
        ensures
            final(self).settings_of().timezone == timezone,
            final(self).settings_of().units == old(self).settings_of().units,
            final(self).settings_of().text == old(self).settings_of().text,
            *final(self) == old(self).with_settings(final(self).settings_of()),
    {
        match self {
            State::Unconfigured(state) => state.settings.set_timezone(timezone),
            State::Configured(state) => state.settings.set_timezone(timezone),
        }
    }

    /// Changes the unit system, whether a series is open or not.
    pub fn set_units(&mut self, units: UnitSystem)
        ensures
            final(self).settings_of().units == units,
            final(self).settings_of().timezone == old(self).settings_of().timezone,
            final(self).settings_of().text == old(self).settings_of().text,
            *final(self) == old(self).with_settings(final(self).settings_of()),
    {
        match self {
            State::Unconfigured(state) => state.settings.set_units(units),
            State::Configured(state) => state.settings.set_units(units),
        }
    }
}

impl<T> Configured<T> {
    /// The range of dates on show.
    pub fn range(&self) -> (range: DateRange)
        ensures
            range == self.range,
    {
        Range::new(self.range.start, self.range.end)
    }

    /// The window that a history query over the range on show covers: from
    /// the beginning of its first day to the beginning of the day after its
    /// last, in the time zone in force. `None` where one of those two
    /// instants does not exist.
    pub fn history_window(&self) -> (window: Option<HistoryWindow>)
        ensures
            is_window(self.range, self.settings.timezone, window),
    {
        let start = match self.range.start.start_in(&self.settings.timezone) {
            Some(start) => start,
            None => {
                return None;
            },
        };
        let next = match self.range.end.plus_days(1) {
            Some(next) => next,
            None => {
                return None;
            },
        };
        match next.start_in(&self.settings.timezone) {
            Some(end) => Some(HistoryWindow { start, end }),
            None => None,
        }
    }

    /// What a history query ends in, given what the store answered: its
    /// records, or its failure as a `TraxError`.
    pub fn get_history(&self, found: Result<Vec<(UniqueId, TraxRecord)>, String>) -> (r: Result<
        Vec<(UniqueId, TraxRecord)>,
        Error,
    >)
        ensures
            history_outcome(found, r),
    {
        match found {
            Ok(records) => Ok(records),
            Err(why) => Err(Error::TraxError(why)),
        }
    }

    /// The store commands that saving these records asks for: the updates
    /// as replacements, then the new records as insertions, each in order.
    /// A command that fails is skipped and the rest go on.
    pub fn save_records(
        &self,
        updated_records: Vec<(UniqueId, TraxRecord)>,
        new_records: Vec<TraxRecord>,
    ) -> (plan: Vec<StoreCommand>)
        ensures
            plan@ == save_plan(updated_records@, new_records@),
    {
        let ghost updates = updated_records@;
        let ghost fresh = new_records@;
        let mut plan: Vec<StoreCommand> = Vec::new();
        assert(plan@ =~= replacements(updates.take(0)));
        for entry in it: updated_records
            invariant
                it.seq() == updates,
                plan@ == replacements(updates.take(it.index() as int)),
        {
            let (id, record) = entry;
            plan.push(StoreCommand::Replace(id, record));
            assert(plan@ =~= replacements(updates.take(it.index() + 1)));
        }
        assert(updates.take(updates.len() as int) =~= updates);
        assert(plan@ =~= replacements(updates) + insertions(fresh.take(0)));
        for record in it: new_records
            invariant
                it.seq() == fresh,
                plan@ == replacements(updates) + insertions(fresh.take(it.index() as int)),
        {
            plan.push(StoreCommand::Insert(record));
            assert(plan@ =~= replacements(updates) + insertions(fresh.take(it.index() + 1)));
        }
        assert(fresh.take(fresh.len() as int) =~= fresh);
        plan
    }

    /// Changes the range of dates on show.
    pub fn set_range(&mut self, range: DateRange)
        ensures
            final(self).range == range,
            final(self).settings == old(self).settings,
            final(self).series_path == old(self).series_path,
            final(self).trax == old(self).trax,
    {
        self.range = range;
    }

    /// The words of the interface.
    pub fn text(&self) -> (text: &Text)
        ensures
            *text == self.settings.text,
    {
        &self.settings.text
    }

    /// The time zone in force.
    pub fn timezone(&self) -> (timezone: &Timezone)
        ensures
            *timezone == self.settings.timezone,
    {
        &self.settings.timezone
    }

    /// The unit system in force.
    pub fn units(&self) -> (units: &UnitSystem)
        ensures
            *units == self.settings.units,
    {
        &self.settings.units
    }
}


/// Whether `settings` are the settings that `config` asks for.
pub open spec fn settings_match(settings: Settings, config: Configuration) -> bool {
    &&& settings.text.language_of() == config.language
    &&& settings.units == config.units
    &&& settings.timezone == config.timezone
}

/// What a query that follows a change ends in, for an application in state
/// `state`: `SeriesNotOpen` where no series is open, the store's failure as
/// a `TraxError`, and otherwise the message `told(range, records)` about the
/// range on show and the records found.
pub open spec fn report<T>(
    state: State<T>,
    found: Result<Vec<(UniqueId, TraxRecord)>, String>,
    told: spec_fn(DateRange, Vec<(UniqueId, TraxRecord)>) -> Message,
    r: Result<Message, Error>,
) -> bool {
    match state {
        State::Unconfigured(_) => r == Err::<Message, Error>(Error::SeriesNotOpen),
        State::Configured(open) => match found {
            Ok(records) => r == Ok::<Message, Error>(told(open.range, records)),
            Err(why) => r == Err::<Message, Error>(Error::TraxError(why)),
        },
    }
}

impl<T> Application<T> {
    /// The controller as it starts. It starts with an open series exactly when
    /// the configuration names a path and the store at that path was opened;
    /// the range on show is then the seven days that end today. Otherwise it
    /// starts unconfigured and keeps the path, if any, as not yet opened.
    pub fn new(config: Configuration, today: CalendarDate, store: Option<T>) -> (app: Application<T>)
        requires
            Text::supports(config.language),
        ensures
            app.state is Configured <==> config.series_path is Some && store is Some,
            settings_match(app.state.settings_of(), config),
            app.state matches State::Configured(open) ==> {
                &&& config.series_path == Some(open.series_path)
                &&& store == Some(open.trax)
                &&& open.range == default_range(today)
            },
            app.state matches State::Unconfigured(closed) ==> closed.series_path
                == config.series_path,
    {
        let settings = Settings::from_config(&config);
        let state = match (config.series_path, store) {
            (Some(series_path), Some(trax)) => State::Configured(
                Configured { settings, series_path, trax, range: initial_range(today) },
            ),
            (series_path, _) => State::Unconfigured(Unconfigured { settings, series_path }),
        };
        Application { state }
    }

    /// The state of the application.
    pub fn get_state(&self) -> (state: &State<T>)
        ensures
            *state == self.state,
    {
        &self.state
    }

    /// The configuration to store so that the next session starts from the
    /// settings now in force.
    pub fn configuration(&self) -> (config: Configuration)
        ensures
            config.series_path == self.state.path_of(),
            settings_match(self.state.settings_of(), config),
    {
        let series_path = match self.state.series_path() {
            Some(path) => Some(path.clone()),
            None => None,
        };
        let settings = self.state.settings();
        Configuration {
            series_path,
            language: settings.text.language_id().clone(),
            timezone: settings.timezone.clone(),
            units: settings.units,
        }
    }

    /// Takes in the result of opening the store at `path`. Where the store
    /// was opened, the series is open from now on, under the settings in
    /// force; the range on show stays if a series was open before and is
    /// otherwise the seven days that end today. Where opening failed, nothing
    /// changes and the failure comes back as a `TraxError`.
    pub fn set_series_path(
        &mut self,
        path: String,
        opened: Result<T, String>,
        today: CalendarDate,
    ) -> (r: Result<(), Error>)
        ensures
            match opened {
                Ok(trax) => r is Ok && final(self).state == State::Configured(
                    Configured {
                        settings: old(self).state.settings_of(),
                        series_path: path,
                        trax,
                        range: match old(self).state {
                            State::Configured(open) => open.range,
                            State::Unconfigured(_) => default_range(today),
                        },
                    },
                ),
                Err(why) => r == Err::<(), Error>(Error::TraxError(why)) && final(self).state
                    == old(self).state,
            },
    {
        match opened {
            Ok(trax) => {
                let settings = self.state.settings().clone();
                let range = match &self.state {
                    State::Configured(open) => open.range(),
                    State::Unconfigured(_) => initial_range(today),
                };
                self.state = State::Configured(
                    Configured { settings, series_path: path, trax, range },
                );
                Ok(())
            },
            Err(why) => Err(Error::TraxError(why)),
        }
    }

    /// What to tell observers once a series was opened and its history
    /// queried: the range on show and the records found.
    pub fn series_file_changed(&self, found: Result<Vec<(UniqueId, TraxRecord)>, String>) -> (r:
        Result<Message, Error>)
        ensures
            report(
                self.state,
                found,
                |range: DateRange, records: Vec<(UniqueId, TraxRecord)>|
                    Message::ChangeSeriesFile { range, records },
                r,
            ),
    {
        match &self.state {
            State::Unconfigured(_) => Err(Error::SeriesNotOpen),
            State::Configured(open) => match open.get_history(found) {
                Ok(records) => Ok(Message::ChangeSeriesFile { range: open.range(), records }),
                Err(e) => Err(e),
            },
        }
    }

    /// Changes the language, whether a series is open or not, and says what
    /// to tell observers: the words of the new language.
    pub fn set_language(&mut self, language: LanguageId) -> (told: Message)
        requires
            Text::supports(language),
        ensures
            final(self).state.settings_of().text.language_of() == language,
            final(self).state.settings_of().units == old(self).state.settings_of().units,
            final(self).state.settings_of().timezone == old(self).state.settings_of().timezone,
            final(self).state == old(self).state.with_settings(final(self).state.settings_of()),
            told == Message::ChangeLanguage(final(self).state.settings_of().text),
    {
        self.state.set_language(language);
        Message::ChangeLanguage(self.state.text().clone())
    }

    /// Changes the time zone, whether a series is open or not, and says what
    /// to tell observers: the new zone.
    pub fn set_timezone(&mut self, timezone: Timezone) -> (told: Message)
        ensures
            final(self).state.settings_of().timezone == timezone,
            final(self).state.settings_of().units == old(self).state.settings_of().units,
            final(self).state.settings_of().text == old(self).state.settings_of().text,
            final(self).state == old(self).state.with_settings(final(self).state.settings_of()),
            told == Message::ChangeTimezone(timezone),
    {
        self.state.set_timezone(timezone);
        Message::ChangeTimezone(self.state.timezone().clone())
    }

    /// Changes the unit system, whether a series is open or not, and says
    /// what to tell observers: the new system.
    pub fn set_units(&mut self, units: UnitSystem) -> (told: Message)
        ensures
            final(self).state.settings_of().units == units,
            final(self).state.settings_of().timezone == old(self).state.settings_of().timezone,
            final(self).state.settings_of().text == old(self).state.settings_of().text,
            final(self).state == old(self).state.with_settings(final(self).state.settings_of()),
            told == Message::ChangeUnits(units),
    {
        self.state.set_units(units);
        Message::ChangeUnits(units)
    }

    /// The store commands that saving these records asks for; fails with
    /// `SeriesNotOpen` where no series is open. The state does not change.
    pub fn save_records(
        &self,
        updated_records: Vec<(UniqueId, TraxRecord)>,
        new_records: Vec<TraxRecord>,
    ) -> (r: Result<Vec<StoreCommand>, Error>)
        ensures
            match self.state {
                State::Unconfigured(_) => r == Err::<Vec<StoreCommand>, Error>(
                    Error::SeriesNotOpen,
                ),
                State::Configured(_) => r matches Ok(plan) && plan@ == save_plan(
                    updated_records@,
                    new_records@,
                ),
            },
    {
        match &self.state {
            State::Unconfigured(_) => Err(Error::SeriesNotOpen),
            State::Configured(open) => Ok(open.save_records(updated_records, new_records)),
        }
    }

    /// What to tell observers once records were saved and the history
    /// queried again: the records found.
    pub fn records_updated(&self, found: Result<Vec<(UniqueId, TraxRecord)>, String>) -> (r: Result<
        Message,
        Error,
    >)
        ensures
            report(
                self.state,
                found,
                |range: DateRange, records: Vec<(UniqueId, TraxRecord)>|
                    Message::RecordsUpdated(records),
                r,
            ),
    {
        match &self.state {
            State::Unconfigured(_) => Err(Error::SeriesNotOpen),
            State::Configured(open) => match open.get_history(found) {
                Ok(records) => Ok(Message::RecordsUpdated(records)),
                Err(e) => Err(e),
            },
        }
    }

    /// Changes the range on show; fails with `SeriesNotOpen`, and changes
    /// nothing, where no series is open.
    pub fn set_range(&mut self, range: DateRange) -> (r: Result<(), Error>)
        ensures
            match old(self).state {
                State::Unconfigured(_) => r == Err::<(), Error>(Error::SeriesNotOpen)
                    && final(self).state == old(self).state,
                State::Configured(open) => r is Ok && final(self).state == State::Configured(
                    Configured {
                        settings: open.settings,
                        series_path: open.series_path,
                        trax: open.trax,
                        range,
                    },
                ),
            },
    {
        match &mut self.state {
            State::Unconfigured(_) => Err(Error::SeriesNotOpen),
            State::Configured(open) => {
                open.set_range(range);
                Ok(())
            },
        }
    }

    /// What to tell observers once the range was changed and the history
    /// queried: the new range and the records found.
    pub fn range_changed(&self, found: Result<Vec<(UniqueId, TraxRecord)>, String>) -> (r: Result<
        Message,
        Error,
    >)
        ensures
            report(
                self.state,
                found,
                |range: DateRange, records: Vec<(UniqueId, TraxRecord)>|
                    Message::ChangeRange { range, records },
                r,
            ),
    {
        match &self.state {
            State::Unconfigured(_) => Err(Error::SeriesNotOpen),
            State::Configured(open) => match open.get_history(found) {
                Ok(records) => Ok(Message::ChangeRange { range: open.range(), records }),
                Err(e) => Err(e),
            },
        }
    }

    /// The window that a history query covers now; fails with
    /// `SeriesNotOpen` where no series is open.
    pub fn history_window(&self) -> (r: Result<Option<HistoryWindow>, Error>)
        ensures
            match self.state {
                State::Unconfigured(_) => r == Err::<Option<HistoryWindow>, Error>(
                    Error::SeriesNotOpen,
                ),
                State::Configured(open) => r matches Ok(window) && is_window(
                    open.range,
                    open.settings.timezone,
                    window,
                ),
            },
    {
        match &self.state {
            State::Unconfigured(_) => Err(Error::SeriesNotOpen),
            State::Configured(open) => Ok(open.history_window()),
        }
    }
}

} // verus!
