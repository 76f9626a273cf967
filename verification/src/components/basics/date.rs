//! Dates on show.
use crate::dates::{long_date, CalendarDate};
use vstd::prelude::*;

verus! {

/// The text that shows a date, such as `May  5, 2019`; `None` for a day
/// beyond the calendar.
pub fn date_c(date: &CalendarDate) -> (r: Option<String>)
    ensures
        long_date(date.days as int) == (match r {
            Some(text) => Some(text@),
            None => None,
        }),
{
    date.long_text()
}

} // verus!
