//! A pair of date selectors that together choose a range.
use crate::dates::CalendarDate;
use crate::range::{DateRange, Range};
use vstd::prelude::*;

verus! {

/// The state of a range selector: the range chosen so far, whether the
/// selector is on show, and whom to tell when the range changes.
pub struct RangeSelector<F> {
    pub range: DateRange,
    pub visible: bool,
    pub on_change: F,
}

impl<F: Fn(DateRange)> RangeSelector<F> {
    /// A selector that starts from `range` and calls `on_change` with the
    /// whole new range whenever one of its two dates is chosen anew.
    pub fn new(range: DateRange, on_change: F) -> (selector: RangeSelector<F>)
        ensures
            selector.range == range,
            !selector.visible,
            selector.on_change == on_change,
    {
        RangeSelector { range, visible: false, on_change }
    }

    /// Puts the selector on show.
    pub fn show(&mut self)
        ensures
            final(self).visible,
            final(self).range == old(self).range,
            final(self).on_change == old(self).on_change,
    {
        self.visible = true;
    }

    /// The user has chosen `date` as the start: the range starts there and
    /// ends where it did, and the callback has been called with it.
    pub fn start_selected(&mut self, date: CalendarDate)
        requires
            forall|range: DateRange| call_requires(old(self).on_change, (range,)),
        ensures
            final(self).range == (Range { start: date, end: old(self).range.end }),
            final(self).visible == old(self).visible,
            final(self).on_change == old(self).on_change,
            call_ensures(old(self).on_change, (final(self).range,), ()),
    {
        self.range = Range::new(date, self.range.end);
        (self.on_change)(Range::new(self.range.start, self.range.end));
    }

    /// The user has chosen `date` as the end: the range ends there and
    /// starts where it did, and the callback has been called with it.
    pub fn end_selected(&mut self, date: CalendarDate)
        requires
            forall|range: DateRange| call_requires(old(self).on_change, (range,)),
        ensures
            final(self).range == (Range { start: old(self).range.start, end: date }),
            final(self).visible == old(self).visible,
            final(self).on_change == old(self).on_change,
            call_ensures(old(self).on_change, (final(self).range,), ()),
    {
        self.range = Range::new(self.range.start, date);
        (self.on_change)(Range::new(self.range.start, self.range.end));
    }
}

} // verus!
