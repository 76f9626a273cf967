//! The days of the history page.
use crate::dates::CalendarDate;
use crate::range::{dates_between, dates_in_range, Range};
use vstd::prelude::*;

verus! {

/// The days that the history shows for a range, the latest first.
pub fn days_on_show(range: &Range<CalendarDate>) -> (days: Vec<CalendarDate>)
    ensures
        days@ == dates_between(range.start.days as int, range.end.days as int).reverse(),
{
    let mut dates = dates_in_range(range);
    let ghost forward = dates@;
    let mut days: Vec<CalendarDate> = Vec::new();
    while dates.len() > 0
        invariant
            dates@.len() <= forward.len(),
            dates@ == forward.take(dates@.len() as int),
            days@.len() == forward.len() - dates@.len(),
            forall|k: int| 0 <= k < days@.len() ==> days@[k] == forward[forward.len() - 1 - k],
        decreases dates@.len(),
    {
        let ghost before = dates@;
        match dates.pop() {
            Some(day) => {
                assert(day == forward[before.len() - 1]);
                days.push(day);
                assert(dates@ =~= forward.take(dates@.len() as int));
            },
            None => {},
        }
    }
    assert(days@ =~= forward.reverse());
    days
}

} // verus!
