//! A button that shows a date and opens a calendar to choose another.
use crate::dates::{civil_day, long_date, CalendarDate};
use crate::i18n::text::text_of;
use vstd::prelude::*;

verus! {

/// The state of a date selector: the date chosen, the text on its button,
/// whether the calendar is open, and whom to tell of a new date.
pub struct DateSelector<F> {
    pub date: CalendarDate,
    /// The date written out; `None` for a day beyond the calendar.
    pub label: Option<String>,
    pub calendar_visible: bool,
    pub visible: bool,
    pub on_change: F,
}

/// The date that a calendar means by a year, a month counted from zero and
/// a day, if there is such a date.
pub open spec fn chosen_day(year: u32, month0: u32, day: u32) -> Option<CalendarDate> {
    if year <= i32::MAX && month0 < u32::MAX {
        CalendarDate::from_count(civil_day(year as int, month0 + 1, day as int))
    } else {
        None
    }
}

/// A selector on show that starts from `date`, with its calendar closed.
pub fn date_selector_c<F: Fn(CalendarDate)>(date: CalendarDate, on_change: F) -> (selector:
    DateSelector<F>)
    ensures
        selector.date == date,
        text_of(selector.label) == long_date(date.days as int),
        !selector.calendar_visible,
        selector.visible,
        selector.on_change == on_change,
{
    DateSelector { date, label: date.long_text(), calendar_visible: false, visible: true, on_change }
}

impl<F: Fn(CalendarDate)> DateSelector<F> {
    /// A selector on show that starts from `date`, with its calendar closed.
    pub fn new(date: CalendarDate, on_change: F) -> (selector: DateSelector<F>)
        ensures
            selector.date == date,
            text_of(selector.label) == long_date(date.days as int),
            !selector.calendar_visible,
            selector.visible,
            selector.on_change == on_change,
    {
        date_selector_c(date, on_change)
    }

    /// Puts the selector on show; the calendar stays as it is.
    pub fn show(&mut self)
        ensures
            final(self).visible,
            final(self).date == old(self).date,
            final(self).label == old(self).label,
            final(self).calendar_visible == old(self).calendar_visible,
            final(self).on_change == old(self).on_change,
    {
        self.visible = true;
    }

    /// The button was clicked: the calendar opens if it was closed and
    /// closes if it was open.
    pub fn button_clicked(&mut self)
        ensures
            final(self).calendar_visible == !old(self).calendar_visible,
            final(self).date == old(self).date,
            final(self).label == old(self).label,
            final(self).visible == old(self).visible,
            final(self).on_change == old(self).on_change,
    {
        self.calendar_visible = !self.calendar_visible;
    }

    /// A day was chosen on the calendar, which counts months from zero.
    /// Where that is a date, it is the date chosen from now on, the button
    /// shows it and the callback has been called with it; where it is none,
    /// nothing changes.
    pub fn day_selected(&mut self, year: u32, month0: u32, day: u32)
        requires
            forall|date: CalendarDate| call_requires(old(self).on_change, (date,)),
        ensures
            final(self).calendar_visible == old(self).calendar_visible,
            final(self).visible == old(self).visible,
            final(self).on_change == old(self).on_change,
            match chosen_day(year, month0, day) {
                Some(date) => {
                    &&& final(self).date == date
                    &&& text_of(final(self).label) == long_date(date.days as int)
                    &&& call_ensures(old(self).on_change, (date,), ())
                },
                None => final(self).date == old(self).date && final(self).label == old(
                    self,
                ).label,
            },
    {
        if year <= i32::MAX as u32 && month0 < u32::MAX {
            if let Some(date) = CalendarDate::from_ymd(year as i32, month0 + 1, day) {
                self.date = date;
                self.label = date.long_text();
                (self.on_change)(date);
            }
        }
    }
}

} // verus!
