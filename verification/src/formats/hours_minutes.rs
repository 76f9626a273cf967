//! Times of day as a person writes them: `HH:MM` on a 24-hour clock.
use crate::errors::Error;
use crate::formats::numerals::{padded_digits, push_padded};
use chrono::NaiveTime;
use chrono::Timelike;
use vstd::prelude::*;
use vstd::string::StringExecFns;

verus! {

/// A time of day to the second.
#[derive(Clone, Copy, Debug, PartialEq, Eq)]
pub struct ClockTime {
    hour: u32,
    minute: u32,
    second: u32,
}

/// A value together with its `HH:MM` text form.
#[derive(Clone, Copy, Debug, PartialEq)]
pub struct HoursMinutes<T>(pub T);

/// The text of a time of day on a 24-hour clock: two digits of hours, a
/// colon, two digits of minutes.
pub open spec fn clock_text(hour: nat, minute: nat) -> Seq<char> {
    padded_digits(hour, 2) + seq![':'] + padded_digits(minute, 2)
}

/// The hour and minute that the time parser of `chrono` reads from a text
/// under the format `%H:%M`, or `None` where it rejects the text.
pub uninterp spec fn clock_reading(s: Seq<char>) -> Option<(u32, u32)>;

/// Reads a time of day with `chrono::NaiveTime::parse_from_str` under the
/// format `%H:%M` and hands back its hour and minute. Trusted: the result is
/// what that parser reads; an hour it reads is below 24 and a minute below
/// 60; and it reads the two-digit text of every such hour and minute as that
/// hour and minute.
#[verifier::external_body]
fn read_clock(inp: &str) -> (r: Option<(u32, u32)>)
    ensures
        r == clock_reading(inp@),
        r matches Some((hour, minute)) ==> hour < 24 && minute < 60,
        forall|hour: u32, minute: u32|
            hour < 24 && minute < 60 && inp@ == #[trigger] clock_text(hour as nat, minute as nat)
                ==> r == Some((hour, minute)),
{
    match NaiveTime::parse_from_str(inp, "%H:%M") {
        Ok(time) => Some((time.hour(), time.minute())),
        Err(_) => None,
    }
}

/// Appends a time of day as two digits of hours, a colon and two digits of
/// minutes.
fn push_clock(out: &mut String, hour: u32, minute: u32)
    ensures
        final(out)@ == old(out)@ + clock_text(hour as nat, minute as nat),
{
    proof {
        reveal_strlit(":");
        assert(":"@ =~= seq![':']);
    }
    push_padded(out, hour as u64, 2);
    out.append(":");
    push_padded(out, minute as u64, 2);
    assert(final(out)@ =~= old(out)@ + clock_text(hour as nat, minute as nat));
}

impl View for ClockTime {
    type V = (nat, nat, nat);

    /// Hour, minute and second.
    closed spec fn view(&self) -> (nat, nat, nat) {
        (self.hour as nat, self.minute as nat, self.second as nat)
    }
}

impl ClockTime {
    #[verifier::type_invariant]
    spec fn valid(self) -> bool {
        self.hour < 24 && self.minute < 60 && self.second < 60
    }

    /// The time of day with these fields, if there is one: hours run to 23,
    /// minutes and seconds to 59.
    pub fn from_hms(hour: u32, minute: u32, second: u32) -> (t: Option<ClockTime>)
        ensures
            t is Some <==> hour < 24 && minute < 60 && second < 60,
            t matches Some(time) ==> time@ == (hour as nat, minute as nat, second as nat),
    {
        if hour < 24 && minute < 60 && second < 60 {
            Some(ClockTime { hour, minute, second })
        } else {
            None
        }
    }

    /// The hour, from 0 to 23.
    pub fn hour(&self) -> (h: u32)
        ensures
            h == self@.0,
            h < 24,
    {
        proof {
            use_type_invariant(self);
        }
        self.hour
    }

    /// The minute, from 0 to 59.
    pub fn minute(&self) -> (m: u32)
        ensures
            m == self@.1,
            m < 60,
    {
        proof {
            use_type_invariant(self);
        }
        self.minute
    }

    /// The second, from 0 to 59.
    pub fn second(&self) -> (s: u32)
        ensures
            s == self@.2,
            s < 60,
    {
        proof {
            use_type_invariant(self);
        }
        self.second
    }

    /// Two times of day with the same fields are the same time.
    pub proof fn lemma_view_decides(self, other: ClockTime)
        requires
            self@ == other@,
        ensures
            self == other,
    {
    }
}

impl<T> HoursMinutes<T> {
    /// Wraps a value.
    pub fn new(val: T) -> (hm: HoursMinutes<T>)
        ensures
            hm.0 == val,
    {
        HoursMinutes(val)
    }

    /// The value inside.
    pub fn extract(self) -> (val: T)
        ensures
            val == self.0,
    {
        self.0
    }

    /// A look at the value inside.
    pub fn unwrap(&self) -> (val: &T)
        ensures
            *val == self.0,
    {
        &self.0
    }
}

/// The time of day, at second zero, of an hour and minute that were read.
pub closed spec fn time_of(reading: Option<(u32, u32)>) -> Option<ClockTime> {
    match reading {
        Some((hour, minute)) => Some(ClockTime { hour, minute, second: 0 }),
        None => None,
    }
}

/// The time of day that a text stands for: the hour and minute that the
/// parser reads in it, at second zero; `None` for text that it rejects.
pub open spec fn time_at(s: Seq<char>) -> Option<ClockTime> {
    time_of(clock_reading(s))
}

/// The time of day that was read has the hour and minute read, and second
/// zero; nothing read is no time.
pub proof fn lemma_time_of(reading: Option<(u32, u32)>)
    ensures
        time_of(reading) is Some <==> reading is Some,
        reading matches Some((hour, minute)) ==> time_of(reading)->0@ == (
            hour as nat,
            minute as nat,
            0nat,
        ),
{
}

/// What reading a text as a time of day gives: the time that was read, or
/// `ParseTimeError`.
pub open spec fn clock_result(reading: Option<(u32, u32)>, r: Result<HoursMinutes<ClockTime>, Error>)
    -> bool {
    r == (match time_of(reading) {
        Some(time) => Ok::<HoursMinutes<ClockTime>, Error>(HoursMinutes(time)),
        None => Err(Error::ParseTimeError),
    })
}

impl HoursMinutes<ClockTime> {
    /// The time as `HH:MM`; the seconds are not shown.
    pub fn render(&self) -> (text: String)
        ensures
            text@ == clock_text(self.0@.0, self.0@.1),
    {
        let mut out = String::new();
        push_clock(&mut out, self.0.hour(), self.0.minute());
        assert(out@ =~= clock_text(self.0@.0, self.0@.1));
        out
    }

    /// The time of day for an hour and minute that were read, or the failure
    /// for a text that was rejected.
    pub fn from_reading(reading: Option<(u32, u32)>) -> (r: Result<HoursMinutes<ClockTime>, Error>)
        requires
            reading matches Some((hour, minute)) ==> hour < 24 && minute < 60,
        ensures
            clock_result(reading, r),
    {
        match reading {
            Some((hour, minute)) => Ok(HoursMinutes(ClockTime { hour, minute, second: 0 })),
            None => Err(Error::ParseTimeError),
        }
    }

    /// Reads a time of day; fails with `ParseTimeError` on text that the
    /// parser rejects. The text of any time at a whole minute is read as
    /// that time.
    pub fn try_from(inp: &str) -> (r: Result<HoursMinutes<ClockTime>, Error>)
        ensures
            clock_result(clock_reading(inp@), r),
            forall|t: ClockTime|
                t@.0 < 24 && t@.1 < 60 && t@.2 == 0 && inp@ == #[trigger] clock_text(t@.0, t@.1)
                    ==> r == Ok::<HoursMinutes<ClockTime>, Error>(HoursMinutes(t)),
    {
        let reading = read_clock(inp);
        let r = HoursMinutes::from_reading(reading);
        proof {
            assert forall|t: ClockTime|
                t@.0 < 24 && t@.1 < 60 && t@.2 == 0 && inp@ == #[trigger] clock_text(
                    t@.0,
                    t@.1,
                ) implies r == Ok::<HoursMinutes<ClockTime>, Error>(HoursMinutes(t)) by {
                let hour = t.hour;
                let minute = t.minute;
                assert(inp@ == clock_text(hour as nat, minute as nat));
            }
        }
        r
    }
}

impl std::str::FromStr for HoursMinutes<ClockTime> {
    type Err = Error;

    /// Reads a time of day as [`HoursMinutes::try_from`] does.
    fn from_str(inp: &str) -> (r: Result<Self, Self::Err>)
        ensures
            clock_result(clock_reading(inp@), r),
            forall|t: ClockTime|
                t@.0 < 24 && t@.1 < 60 && t@.2 == 0 && inp@ == #[trigger] clock_text(t@.0, t@.1)
                    ==> r == Ok::<HoursMinutes<ClockTime>, Error>(HoursMinutes(t)),
    {
        HoursMinutes::try_from(inp)
    }
}

} // verus!
