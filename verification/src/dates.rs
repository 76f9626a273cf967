//! Calendar dates, time zones and instants, as far as the log needs them.
//!
//! A calendar date is a day number, so that the day after is the number
//! after. What only a calendar and a time zone database can say (which day
//! number a year, month and day make, on which day an instant falls in a
//! zone, when a day begins there) is asked of `chrono` and `chrono-tz`.
use chrono::Datelike;
use chrono::NaiveDate;
use chrono::Offset;
use chrono::Timelike;
use chrono::TimeZone;
use chrono_tz::Tz;
use vstd::prelude::*;
use vstd::string::StringExecFns;

verus! {

/// Whether the time zone database of `chrono-tz` knows a zone by this name.
pub uninterp spec fn zone_known(name: Seq<char>) -> bool;

/// The day number (days of the common era, 0001-01-01 being day 1) of a year,
/// month and day of the proleptic Gregorian calendar, as `chrono` counts it;
/// `None` where there is no such date.
pub uninterp spec fn civil_day(year: int, month: int, day: int) -> Option<i32>;

/// The calendar date and the time of day that the clocks of a time zone
/// show at an instant, given in seconds since 1970-01-01 00:00 UTC, as
/// `chrono-tz` has it: the day number of the date, then hour, minute and
/// second. `None` for an unknown zone or an instant beyond the calendar.
pub uninterp spec fn local_moment(seconds: int, zone: Seq<char>) -> Option<(i32, u32, u32, u32)>;

/// The day number of the calendar date on which an instant falls in a time
/// zone; `None` for an unknown zone or an instant beyond the calendar.
pub open spec fn local_day(seconds: int, zone: Seq<char>) -> Option<i32> {
    match local_moment(seconds, zone) {
        Some((day, _, _, _)) => Some(day),
        None => None,
    }
}

/// The hour, minute and second that the clocks of a time zone show at an
/// instant; `None` for an unknown zone or an instant beyond the calendar.
pub open spec fn local_time(seconds: int, zone: Seq<char>) -> Option<(u32, u32, u32)> {
    match local_moment(seconds, zone) {
        Some((_, hour, minute, second)) => Some((hour, minute, second)),
        None => None,
    }
}

/// The instant, in seconds since 1970-01-01 00:00 UTC, at which a calendar
/// date begins in a time zone, as `chrono-tz` has it; `None` for an unknown
/// zone, a day beyond the calendar, or a day whose midnight the zone's clocks
/// skip or show twice.
pub uninterp spec fn day_start(day: int, zone: Seq<char>) -> Option<i64>;

/// A calendar date written out, such as `May  5, 2019`: the name of the
/// month, the day in two columns, the year, as `chrono` formats a date under
/// `%B %e, %Y`. `None` for a day beyond the calendar.
pub uninterp spec fn long_date(day: int) -> Option<Seq<char>>;

/// Writes a date out with `chrono::NaiveDate::from_num_days_from_ce_opt` and
/// `format` under `%B %e, %Y`. Trusted: the result is that text.
#[verifier::external_body]
fn write_long_date(day: i32) -> (r: Option<String>)
    ensures
        long_date(day as int) == (match r {
            Some(text) => Some(text@),
            None => None,
        }),
{
    NaiveDate::from_num_days_from_ce_opt(day).map(|date| date.format("%B %e, %Y").to_string())
}

/// The instant on the same day of a time zone as a given instant at which
/// the clocks there show a given hour, minute and second, as `chrono` sets
/// the fields of a local time one after the other; `None` where a step of
/// that has no single result.
pub uninterp spec fn moved_in_day(
    seconds: int,
    zone: Seq<char>,
    hour: int,
    minute: int,
    second: int,
) -> Option<i64>;

/// Reads the local calendar and clock: the instant from
/// `chrono::TimeZone::timestamp_opt` in a zone of `chrono-tz`, its local
/// date and time from `NaiveDateTime::checked_add_offset`, which gives
/// nothing where the zone's offset carries the local date beyond the
/// calendar, and the fields from the accessors of `Datelike` and `Timelike`.
/// Trusted: the result is what the calendar and the clocks of the zone show,
/// an hour below 24 and a minute and a second below 60.
#[verifier::external_body]
fn find_local_moment(seconds: i64, zone: &str) -> (r: Option<(i32, u32, u32, u32)>)
    ensures
        r == local_moment(seconds as int, zone@),
        r matches Some((_, hour, minute, second)) ==> hour < 24 && minute < 60 && second < 60,
{
    let tz = zone.parse::<Tz>().ok()?;
    let moment = tz.timestamp_opt(seconds, 0).single()?;
    let local = moment.naive_utc().checked_add_offset(moment.offset().fix())?;
    Some((local.num_days_from_ce(), local.hour(), local.minute(), local.second()))
}

/// Moves an instant within its local day with `with_hour`, `with_minute`
/// and `with_second` of `chrono::Timelike`. Trusted: the result is the
/// instant those calls give.
#[verifier::external_body]
fn move_in_day(seconds: i64, zone: &str, hour: u32, minute: u32, second: u32) -> (r: Option<i64>)
    ensures
        r == moved_in_day(seconds as int, zone@, hour as int, minute as int, second as int),
{
    let tz = zone.parse::<Tz>().ok()?;
    let moment = tz.timestamp_opt(seconds, 0).single()?;
    Some(moment.with_hour(hour)?.with_minute(minute)?.with_second(second)?.timestamp())
}

/// Looks a zone name up with `chrono_tz::Tz::from_str`. Trusted: the answer
/// is whether the database knows the name, and it knows `Etc/UTC`.
#[verifier::external_body]
fn lookup_zone(name: &str) -> (known: bool)
    ensures
        known == zone_known(name@),
        name@ == seq!['E', 't', 'c', '/', 'U', 'T', 'C'] ==> known,
{
    name.parse::<Tz>().is_ok()
}

/// Counts the days up to a date with `chrono::NaiveDate::from_ymd_opt` and
/// `num_days_from_ce`. Trusted: the result is that count.
#[verifier::external_body]
fn count_days(year: i32, month: u32, day: u32) -> (days: Option<i32>)
    ensures
        days == civil_day(year as int, month as int, day as int),
{
    NaiveDate::from_ymd_opt(year, month, day).map(|date| date.num_days_from_ce())
}

/// Finds the beginning of a day in a zone with
/// `chrono::NaiveDate::from_num_days_from_ce_opt`, `and_hms_opt` and
/// `and_local_timezone`. Trusted: the result is that instant.
#[verifier::external_body]
fn find_day_start(day: i32, zone: &str) -> (seconds: Option<i64>)
    ensures
        seconds == day_start(day as int, zone@),
{
    let tz = zone.parse::<Tz>().ok()?;
    let midnight = NaiveDate::from_num_days_from_ce_opt(day)?.and_hms_opt(0, 0, 0)?;
    Some(midnight.and_local_timezone(tz).single()?.timestamp())
}

/// A time zone of the database, held by its name.
#[derive(Debug, PartialEq, Eq)]
pub struct Timezone {
    name: String,
}

/// A calendar date: a day number, 0001-01-01 being day 1.
#[derive(Clone, Copy, Debug, PartialEq, Eq, Hash, Structural)]
pub struct CalendarDate {
    pub days: i32,
}

/// An instant, and the zone in which it was noted.
#[derive(Debug, PartialEq, Eq)]
pub struct Timestamp {
    /// Whole seconds since 1970-01-01 00:00 UTC.
    pub seconds: i64,
    /// Nanoseconds past that second.
    pub nanos: u32,
    /// The zone in which the instant was noted.
    pub zone: Timezone,
}

impl View for Timezone {
    type V = Seq<char>;

    /// The zone's name.
    closed spec fn view(&self) -> Seq<char> {
        self.name@
    }
}

impl Clone for Timezone {
    fn clone(&self) -> (copy: Timezone)
        ensures
            copy == *self,
    {
        proof {
            use_type_invariant(self);
        }
        Timezone { name: self.name.clone() }
    }
}

impl Timezone {
    #[verifier::type_invariant]
    spec fn valid(self) -> bool {
        zone_known(self.name@)
    }

    /// The zone of this name, if the database knows it; it knows `Etc/UTC`.
    pub fn parse(name: &str) -> (zone: Option<Timezone>)
        ensures
            zone is Some <==> zone_known(name@),
            zone matches Some(z) ==> z@ == name@,
            name@ == seq!['E', 't', 'c', '/', 'U', 'T', 'C'] ==> zone is Some,
    {
        if lookup_zone(name) {
            Some(Timezone { name: String::from_str(name) })
        } else {
            None
        }
    }

    /// Coordinated universal time, `Etc/UTC`.
    pub fn utc() -> (zone: Timezone)
        ensures
            zone@ == seq!['E', 't', 'c', '/', 'U', 'T', 'C'],
    {
        proof {
            reveal_strlit("Etc/UTC");
            assert("Etc/UTC"@ =~= seq!['E', 't', 'c', '/', 'U', 'T', 'C']);
        }
        match Timezone::parse("Etc/UTC") {
            Some(zone) => zone,
            None => unreached(),
        }
    }

    /// The zone's name.
    pub fn name(&self) -> (name: &str)
        ensures
            name@ == self@,
            zone_known(name@),
    {
        proof {
            use_type_invariant(self);
        }
        self.name.as_str()
    }
}

impl CalendarDate {
    /// The date with this day number.
    pub fn new(days: i32) -> (date: CalendarDate)
        ensures
            date.days == days,
    {
        CalendarDate { days }
    }

    /// The date of a year, month and day, if there is such a date.
    pub fn from_ymd(year: i32, month: u32, day: u32) -> (date: Option<CalendarDate>)
        ensures
            date == CalendarDate::from_count(civil_day(year as int, month as int, day as int)),
    {
        CalendarDate::from_day_count(count_days(year, month, day))
    }

    /// The date of a day count, where there is one.
    pub open spec fn from_count(days: Option<i32>) -> Option<CalendarDate> {
        match days {
            Some(days) => Some(CalendarDate { days }),
            None => None,
        }
    }

    /// The date of a day count, where there is one.
    pub fn from_day_count(days: Option<i32>) -> (date: Option<CalendarDate>)
        ensures
            date == CalendarDate::from_count(days),
    {
        match days {
            Some(days) => Some(CalendarDate { days }),
            None => None,
        }
    }

    /// The date `n` days later (earlier for a negative `n`), if its day
    /// number can be held.
    pub fn plus_days(&self, n: i32) -> (date: Option<CalendarDate>)
        ensures
            date is Some <==> i32::MIN <= self.days + n <= i32::MAX,
            date matches Some(d) ==> d.days == self.days + n,
    {
        match self.days.checked_add(n) {
            Some(days) => Some(CalendarDate { days }),
            None => None,
        }
    }

    /// The date written out, such as `May  5, 2019`; `None` for a day beyond
    /// the calendar.
    pub fn long_text(&self) -> (r: Option<String>)
        ensures
            long_date(self.days as int) == (match r {
                Some(text) => Some(text@),
                None => None,
            }),
    {
        write_long_date(self.days)
    }

    /// The instant at which this date begins in `zone`, if the zone's clocks
    /// show that midnight exactly once.
    pub fn start_in(&self, zone: &Timezone) -> (start: Option<Timestamp>)
        ensures
            start is Some <==> day_start(self.days as int, zone@) is Some,
            start matches Some(t) ==> t.seconds == day_start(self.days as int, zone@)->0
                && t.nanos == 0 && t.zone@ == zone@,
    {
        match find_day_start(self.days, zone.name()) {
            Some(seconds) => Some(Timestamp { seconds, nanos: 0, zone: zone.clone() }),
            None => None,
        }
    }
}

impl Timestamp {
    /// The instant `seconds` and `nanos` after 1970-01-01 00:00 UTC, noted in `zone`.
    pub fn new(seconds: i64, nanos: u32, zone: Timezone) -> (t: Timestamp)
        ensures
            t.seconds == seconds,
            t.nanos == nanos,
            t.zone == zone,
    {
        Timestamp { seconds, nanos, zone }
    }

    /// The day number of the date on which this instant falls in `zone`.
    pub open spec fn day_in(self, zone: Timezone) -> Option<i32> {
        local_day(self.seconds as int, zone@)
    }

    /// What the clocks of `zone` show at this instant: hour, minute and
    /// second; `None` for an instant beyond the calendar.
    pub fn clock_in(&self, zone: &Timezone) -> (r: Option<(u32, u32, u32)>)
        ensures
            r == local_time(self.seconds as int, zone@),
            r matches Some((hour, minute, second)) ==> hour < 24 && minute < 60 && second < 60,
    {
        match find_local_moment(self.seconds, zone.name()) {
            Some((_, hour, minute, second)) => Some((hour, minute, second)),
            None => None,
        }
    }

    /// This instant moved, within its day in `zone`, to where the clocks
    /// there show the given hour, minute and second; the fraction of the
    /// second stays, and the result is noted in `zone`. `None` where the
    /// clocks never show that time on that day, or show it twice.
    pub fn at_clock(&self, zone: &Timezone, hour: u32, minute: u32, second: u32) -> (r: Option<
        Timestamp,
    >)
        ensures
            r is Some <==> moved_in_day(
                self.seconds as int,
                zone@,
                hour as int,
                minute as int,
                second as int,
            ) is Some,
            r matches Some(t) ==> Some(t.seconds) == moved_in_day(
                self.seconds as int,
                zone@,
                hour as int,
                minute as int,
                second as int,
            ) && t.nanos == self.nanos && t.zone@ == zone@,
    {
        match move_in_day(self.seconds, zone.name(), hour, minute, second) {
            Some(seconds) => Some(Timestamp { seconds, nanos: self.nanos, zone: zone.clone() }),
            None => None,
        }
    }

    /// The calendar date on which this instant falls in `zone`; `None` for
    /// an instant beyond the calendar.
    pub fn date_in(&self, zone: &Timezone) -> (date: Option<CalendarDate>)
        ensures
            date == CalendarDate::from_count(self.day_in(*zone)),
    {
        match find_local_moment(self.seconds, zone.name()) {
            Some((day, _, _, _)) => Some(CalendarDate { days: day }),
            None => None,
        }
    }
}

impl Clone for Timestamp {
    fn clone(&self) -> (copy: Timestamp)
        ensures
            copy == *self,
    {
        Timestamp { seconds: self.seconds, nanos: self.nanos, zone: self.zone.clone() }
    }
}

} // verus!
