//! Durations as a person writes them: `S`, `M:S` or `H:M:S`.
use crate::errors::Error;
use crate::formats::numerals::{
    all_digits, digits_value, find_char, first_of, fit64, fixed_of_text,
    lemma_digits_lack, lemma_first_of_join, lemma_fixed_of_digits, lemma_nat_digits,
    lemma_padded_digits, lemma_pow10_small, nat_digits, padded_digits, parse_fixed_chars,
    push_nat, push_padded,
};
use crate::si::Second;
use crate::strings::chars_of;
use vstd::prelude::*;
use vstd::string::StringExecFns;

verus! {

/// A span of time together with its text form.
#[derive(Clone, Copy, Debug, PartialEq, Eq, Structural)]
pub struct Duration(pub Second);

/// What one field of a duration is worth in milliseconds: a decimal numeral,
/// read to three places.
pub open spec fn field_value(s: Seq<char>) -> Option<u64> {
    fixed_of_text(s, 3)
}

/// Hours, minutes and seconds, each in thousandths, as milliseconds; `None`
/// where a field is missing its value or the sum does not fit in 64 bits.
pub open spec fn combine(hours: Option<u64>, minutes: Option<u64>, seconds: Option<u64>) -> Option<
    u64,
> {
    match (hours, minutes, seconds) {
        (Some(h), Some(m), Some(s)) => fit64((s + 60 * m + 3600 * h) as nat),
        _ => None,
    }
}

/// The milliseconds that a duration text stands for. The text is cut at its
/// colons into one, two or three fields (seconds; minutes and seconds; hours,
/// minutes and seconds), each a decimal numeral. `None` for any other text.
pub open spec fn duration_of_text(s: Seq<char>) -> Option<u64> {
    let a = first_of(s, ':');
    if a == s.len() {
        combine(Some(0), Some(0), field_value(s))
    } else {
        let s1 = s.skip(a + 1);
        let b = first_of(s1, ':');
        if b == s1.len() {
            combine(Some(0), field_value(s.take(a)), field_value(s1))
        } else {
            let s2 = s1.skip(b + 1);
            if first_of(s2, ':') == s2.len() {
                combine(field_value(s.take(a)), field_value(s1.take(b)), field_value(s2))
            } else {
                None
            }
        }
    }
}

/// The canonical text of a duration of `ms` milliseconds, which shows whole
/// seconds only: `S` under a minute, `M:SS` under an hour, else `H:MM:SS`.
pub open spec fn duration_text(ms: nat) -> Seq<char> {
    let n = ms / 1000;
    let h = n / 3600;
    let m = (n / 60) % 60;
    let s = n % 60;
    if h == 0 {
        if m == 0 {
            nat_digits(s)
        } else {
            nat_digits(m) + seq![':'] + padded_digits(s, 2)
        }
    } else {
        nat_digits(h) + seq![':'] + padded_digits(m, 2) + seq![':'] + padded_digits(s, 2)
    }
}

impl Duration {
    /// Wraps a span of time.
    pub fn new(val: Second) -> (d: Duration)
        ensures
            d.0 == val,
    {
        Duration(val)
    }

    /// The span of time inside.
    pub fn extract(self) -> (val: Second)
        ensures
            val == self.0,
    {
        self.0
    }

    /// The canonical text: whole seconds, the fraction of a second dropped.
    pub fn render(&self) -> (text: String)
        ensures
            text@ == duration_text(self.0.units as nat),
    {
        let n: u64 = self.0.units / 1000;
        let hours: u64 = n / 3600;
        let minutes: u64 = (n / 60) % 60;
        let seconds: u64 = n % 60;
        let mut out = String::new();
        proof {
            reveal_strlit(":");
            assert(":"@ =~= seq![':']);
        }
        if hours == 0 {
            if minutes == 0 {
                push_nat(&mut out, seconds);
            } else {
                push_nat(&mut out, minutes);
                out.append(":");
                push_padded(&mut out, seconds, 2);
            }
        } else {
            push_nat(&mut out, hours);
            out.append(":");
            push_padded(&mut out, minutes, 2);
            out.append(":");
            push_padded(&mut out, seconds, 2);
        }
        assert(out@ =~= duration_text(self.0.units as nat));
        out
    }

    /// Reads `S`, `M:S` or `H:M:S`, each field a decimal numeral, and fails
    /// with `ParseDurationError` on any other text.
    pub fn try_from(inp: &str) -> (r: Result<Duration, Error>)
        ensures
            r == (match duration_of_text(inp@) {
                Some(ms) => Ok::<Duration, Error>(Duration(Second { units: ms })),
                None => Err(Error::ParseDurationError),
            }),
    {
        let v = chars_of(inp);
        let n = v.len();
        let ghost s = inp@;
        assert(v@.subrange(0, n as int) =~= s);
        let a = find_char(&v, 0, n, ':');
        if a == n {
            return Duration::from_fields(Some(0), Some(0), parse_fixed_chars(&v, 0, n, 3));
        }
        let ghost s1 = s.skip(a + 1);
        assert(v@.subrange(a + 1, n as int) =~= s1);
        assert(v@.subrange(0, a as int) =~= s.take(a as int));
        let b = find_char(&v, a + 1, n, ':');
        if b == n {
            return Duration::from_fields(
                Some(0),
                parse_fixed_chars(&v, 0, a, 3),
                parse_fixed_chars(&v, a + 1, n, 3),
            );
        }
        let ghost s2 = s1.skip(b - a);
        assert(v@.subrange(b + 1, n as int) =~= s2);
        assert(v@.subrange(a + 1, b as int) =~= s1.take(b - a - 1));
        let c = find_char(&v, b + 1, n, ':');
        if c == n {
            Duration::from_fields(
                parse_fixed_chars(&v, 0, a, 3),
                parse_fixed_chars(&v, a + 1, b, 3),
                parse_fixed_chars(&v, b + 1, n, 3),
            )
        } else {
            Err(Error::ParseDurationError)
        }
    }

    /// The duration of three fields already read, each in thousandths; fails
    /// where one of them did not read or the sum is too large.
    pub fn from_fields(hours: Option<u64>, minutes: Option<u64>, seconds: Option<u64>) -> (r:
        Result<Duration, Error>)
        ensures
            r == (match combine(hours, minutes, seconds) {
                Some(ms) => Ok::<Duration, Error>(Duration(Second { units: ms })),
                None => Err(Error::ParseDurationError),
            }),
    {
        match (hours, minutes, seconds) {
            (Some(h), Some(m), Some(s)) => {
                let total: u128 = s as u128 + 60 * (m as u128) + 3600 * (h as u128);
                if total <= u64::MAX as u128 {
                    Ok(Duration(Second { units: total as u64 }))
                } else {
                    Err(Error::ParseDurationError)
                }
            },
            _ => Err(Error::ParseDurationError),
        }
    }
}

impl std::str::FromStr for Duration {
    type Err = Error;

    /// Reads a duration as [`Duration::try_from`] does.
    fn from_str(inp: &str) -> (r: Result<Self, Self::Err>)
        ensures
            r == (match duration_of_text(inp@) {
                Some(ms) => Ok::<Duration, Error>(Duration(Second { units: ms })),
                None => Err(Error::ParseDurationError),
            }),
    {
        Duration::try_from(inp)
    }
}


/// A field of plain digits is worth a thousand times what they write.
pub proof fn lemma_field_of_digits(t: Seq<char>)
    requires
        all_digits(t),
        t.len() > 0,
    ensures
        field_value(t) == fit64(digits_value(t) * 1000),
{
    lemma_fixed_of_digits(t, 3);
    lemma_pow10_small();
}

/// A duration of whole seconds survives being written and read back:
/// reading the canonical text of `ms` milliseconds gives `ms` again.
pub proof fn lemma_duration_round_trip(ms: u64)
    requires
        ms % 1000 == 0,
    ensures
        duration_of_text(duration_text(ms as nat)) == Some(ms),
{
    let n = ms as nat / 1000;
    let h = n / 3600;
    let m = (n / 60) % 60;
    let s = n % 60;
    assert(n == 3600 * h + 60 * m + s);
    assert(ms == 1000 * n);
    let text = duration_text(ms as nat);
    lemma_pow10_small();
    let secs = padded_digits(s, 2);
    let mins = padded_digits(m, 2);
    lemma_padded_digits(s, 2);
    lemma_padded_digits(m, 2);
    lemma_field_of_digits(secs);
    lemma_field_of_digits(mins);
    assert(s % 100 == s);
    assert(m % 100 == m);
    if h == 0 {
        if m == 0 {
            lemma_nat_digits(s);
            lemma_digits_lack(text, ':');
            lemma_field_of_digits(text);
        } else {
            let front = nat_digits(m);
            lemma_nat_digits(m);
            lemma_digits_lack(front, ':');
            lemma_first_of_join(front, ':', secs);
            lemma_digits_lack(secs, ':');
            lemma_field_of_digits(front);
        }
    } else {
        let front = nat_digits(h);
        lemma_nat_digits(h);
        lemma_digits_lack(front, ':');
        let back = mins + seq![':'] + secs;
        assert(text =~= front + seq![':'] + back);
        lemma_first_of_join(front, ':', back);
        lemma_digits_lack(mins, ':');
        lemma_first_of_join(mins, ':', secs);
        lemma_digits_lack(secs, ':');
        lemma_field_of_digits(front);
        assert(h * 1000 <= ms);
    }
}

} // verus!
