//! Step counts as a person writes them: a plain non-negative integer.
use crate::errors::Error;
use crate::formats::numerals::{
    lemma_nat_round_trip, nat_digits, nat_of_text, parse_nat_chars, push_nat,
};
use crate::strings::chars_of;
use vstd::prelude::*;

verus! {

/// The step count that a text stands for: a plain unsigned integer that
/// fits in 32 bits. `None` for any other text.
pub open spec fn steps_of_text(s: Seq<char>) -> Option<u32> {
    match nat_of_text(s) {
        Some(n) => if n <= u32::MAX {
            Some(n as u32)
        } else {
            None
        },
        None => None,
    }
}

/// A step count as text.
pub fn render_steps(steps: u32) -> (text: String)
    ensures
        text@ == nat_digits(steps as nat),
{
    let mut out = String::new();
    push_nat(&mut out, steps as u64);
    assert(out@ =~= nat_digits(steps as nat));
    out
}

/// Reads a step count; fails with `ParseStepsError` on anything but a plain
/// non-negative integer: a negative number, a decimal fraction, other text.
pub fn parse_steps(inp: &str) -> (r: Result<u32, Error>)
    ensures
        r == (match steps_of_text(inp@) {
            Some(steps) => Ok::<u32, Error>(steps),
            None => Err(Error::ParseStepsError),
        }),
{
    let v = chars_of(inp);
    assert(v@.subrange(0, v@.len() as int) =~= inp@);
    match parse_nat_chars(&v, 0, v.len()) {
        Some(n) => if n <= u32::MAX as u64 {
            Ok(n as u32)
        } else {
            Err(Error::ParseStepsError)
        },
        None => Err(Error::ParseStepsError),
    }
}

/// Every step count survives being written and read back.
pub proof fn lemma_steps_round_trip(steps: u32)
    ensures
        steps_of_text(nat_digits(steps as nat)) == Some(steps),
{
    lemma_nat_round_trip(steps as nat);
}

} // verus!
