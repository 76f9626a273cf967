//! Times of day on show and in a text field.
use crate::components::basics::text_entry::{validated_text_entry_c, ValidatedTextEntry};
use crate::formats::{ClockTime, HoursMinutes};
use crate::formats::codec::ClockCodec;
use crate::formats::hours_minutes::clock_text;
use vstd::prelude::*;

verus! {

/// The text that shows a time of day, as `HH:MM`.
pub fn time_c(time: &ClockTime) -> (text: String)
    ensures
        text@ == clock_text(time@.0, time@.1),
{
    HoursMinutes::new(*time).render()
}

/// A field to edit a time of day.
pub fn time_edit_c<U: Fn(ClockTime)>(time: &ClockTime, on_update: U) -> (entry: ValidatedTextEntry<
    ClockCodec,
    U,
>)
    ensures
        entry.text@ == clock_text(time@.0, time@.1),
        !entry.warning,
        entry.on_update == on_update,
{
    validated_text_entry_c(*time, ClockCodec, on_update)
}

} // verus!
