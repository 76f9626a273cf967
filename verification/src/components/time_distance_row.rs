//! A workout measured by time and distance: the row that shows it, and the
//! row of fields that edits it.
use crate::components::about::or_blank;
use crate::components::widget::{children_of, is_box, is_label, Orientation, Widget};
use crate::dates::{local_time, moved_in_day, Timestamp, Timezone};
use crate::formats::{ClockTime, Duration, HoursMinutes};
use crate::formats::codec::{ClockCodec, Codec, DistanceField, DurationField};
use crate::formats::duration::duration_text;
use crate::formats::hours_minutes::{clock_reading, clock_text};
use crate::i18n::{Text, UnitSystem};
use crate::i18n::text::text_of;
use crate::i18n::units::quantity_text;
use crate::si::{Meter, Second};
use crate::trax::timedistance::{activity_of_text, ActivityType, TimeDistanceRecord};
use emseries::UniqueId;
use vstd::prelude::*;
use vstd::string::StringExecFns;

verus! {

/// What stands where a value is missing.
pub open spec fn dashes() -> Seq<char> {
    seq!['-', '-', '-']
}

/// The time of day to show for a workout: what the clocks of the zone
/// showed when it began, as `HH:MM`; dashes where that cannot be said.
pub open spec fn shown_time(stamp: Timestamp, timezone: Timezone) -> Seq<char> {
    match local_time(stamp.seconds as int, timezone@) {
        Some((hour, minute, _)) => clock_text(hour as nat, minute as nat),
        None => dashes(),
    }
}

/// The distance to show for a workout, in the units in force; dashes for none.
pub open spec fn shown_distance(distance: Option<Meter>, units: UnitSystem) -> Seq<char> {
    match distance {
        Some(d) => quantity_text(d.units as nat, units.distance_step()),
        None => dashes(),
    }
}

/// The duration to show for a workout; dashes for none.
pub open spec fn shown_duration(duration: Option<Second>) -> Seq<char> {
    match duration {
        Some(d) => duration_text(d.units as nat),
        None => dashes(),
    }
}

/// Whether `widget` is the row that shows `record`: a horizontal box,
/// spaced by five, of the time of day, the name of the activity, the
/// distance and the duration.
pub open spec fn time_distance_row(
    widget: Widget,
    record: TimeDistanceRecord,
    timezone: Timezone,
    text: Text,
    units: UnitSystem,
) -> bool {
    let children = children_of(widget);
    &&& is_box(widget, Orientation::Horizontal, 5)
    &&& children.len() == 4
    &&& is_label(children[0], shown_time(record.timestamp, timezone))
    &&& is_label(
        children[1],
        or_blank(text.phrase(Text::activity_id(record.activity), Seq::empty())),
    )
    &&& is_label(children[2], shown_distance(record.distance, units))
    &&& is_label(children[3], shown_duration(record.duration))
}

/// Three dashes.
fn missing() -> (text: String)
    ensures
        text@ == dashes(),
{
    proof {
        reveal_strlit("---");
    }
    let text = String::from_str("---");
    assert(text@ =~= dashes());
    text
}

/// The name of an activity in the words of `text`.
pub fn activity_c(activity: &ActivityType, text: &Text) -> (r: Option<String>)
    ensures
        text_of(r) == text.phrase(Text::activity_id(*activity), Seq::empty()),
{
    text.time_distance_activity(activity)
}

/// The row that shows a workout: when it began, what was done, how far and
/// how long.
pub fn time_distance_c(
    record: &TimeDistanceRecord,
    timezone: &Timezone,
    text: &Text,
    units: &UnitSystem,
) -> (row: Widget)
    ensures
        time_distance_row(row, *record, *timezone, *text, *units),
{
    let time = match record.timestamp.clock_in(timezone) {
        Some((hour, minute, _)) => match ClockTime::from_hms(hour, minute, 0) {
            Some(time) => HoursMinutes::new(time).render(),
            None => missing(),
        },
        None => missing(),
    };
    let activity = match activity_c(&record.activity, text) {
        Some(name) => name,
        None => String::new(),
    };
    let distance = match record.distance {
        Some(d) => units.render_distance(d),
        None => missing(),
    };
    let duration = match record.duration {
        Some(d) => Duration::new(d).render(),
        None => missing(),
    };
    let mut children: Vec<Widget> = Vec::new();
    children.push(Widget::Label(time));
    children.push(Widget::Label(activity));
    children.push(Widget::Label(distance));
    children.push(Widget::Label(duration));
    Widget::Box { orientation: Orientation::Horizontal, spacing: 5, children }
}

/// The fields that edit one workout. Each change that reads well changes
/// the record and hands the whole record on.
pub struct TimeDistanceRecordEdit<U> {
    pub id: UniqueId,
    pub record: TimeDistanceRecord,
    pub timezone: Timezone,
    pub units: UnitSystem,
    /// Set while the text of the time field is no time of day.
    pub time_warning: bool,
    /// Set while the text of the distance field is no distance.
    pub distance_warning: bool,
    /// Set while the text of the duration field is no duration.
    pub duration_warning: bool,
    pub on_update: U,
}

/// A record like `record` but with the activity `activity`.
pub open spec fn with_activity(record: TimeDistanceRecord, activity: ActivityType)
    -> TimeDistanceRecord {
    TimeDistanceRecord {
        timestamp: record.timestamp,
        activity,
        distance: record.distance,
        duration: record.duration,
        comments: record.comments,
    }
}

/// A record like `record` but with the distance `distance`.
pub open spec fn with_distance(record: TimeDistanceRecord, distance: Meter) -> TimeDistanceRecord {
    TimeDistanceRecord {
        timestamp: record.timestamp,
        activity: record.activity,
        distance: Some(distance),
        duration: record.duration,
        comments: record.comments,
    }
}

/// A record like `record` but with the duration `duration`.
pub open spec fn with_duration(record: TimeDistanceRecord, duration: Second) -> TimeDistanceRecord {
    TimeDistanceRecord {
        timestamp: record.timestamp,
        activity: record.activity,
        distance: record.distance,
        duration: Some(duration),
        comments: record.comments,
    }
}

/// Whether `after` is `before` moved to the time of day read in `reading`,
/// on its day in `zone`: all fields but the timestamp as they were, the
/// timestamp at that hour and minute and second zero, its fraction of a
/// second as it was, noted in `zone`.
pub open spec fn moved_to_time(
    before: TimeDistanceRecord,
    after: TimeDistanceRecord,
    zone: Timezone,
    reading: (u32, u32),
) -> bool {
    &&& Some(after.timestamp.seconds) == moved_in_day(
        before.timestamp.seconds as int,
        zone@,
        reading.0 as int,
        reading.1 as int,
        0,
    )
    &&& after.timestamp.nanos == before.timestamp.nanos
    &&& after.timestamp.zone@ == zone@
    &&& after.activity == before.activity
    &&& after.distance == before.distance
    &&& after.duration == before.duration
    &&& after.comments == before.comments
}

/// The fields that edit `record`, whose times are shown as the clocks of
/// `timezone` show them and whose distance is in the units `units`.
pub fn time_distance_record_edit_c<U: Fn(UniqueId, TimeDistanceRecord)>(
    id: UniqueId,
    record: TimeDistanceRecord,
    timezone: Timezone,
    units: UnitSystem,
    on_update: U,
) -> (edit: TimeDistanceRecordEdit<U>)
    ensures
        edit.id == id,
        edit.record == record,
        edit.timezone == timezone,
        edit.units == units,
        !edit.time_warning && !edit.distance_warning && !edit.duration_warning,
        edit.on_update == on_update,
{
    TimeDistanceRecordEdit {
        id,
        record,
        timezone,
        units,
        time_warning: false,
        distance_warning: false,
        duration_warning: false,
        on_update,
    }
}

impl<U: Fn(UniqueId, TimeDistanceRecord)> TimeDistanceRecordEdit<U> {
    /// Whether this value differs from `before` in its record and warnings
    /// alone.
    pub open spec fn same_setting(self, before: Self) -> bool {
        &&& self.id == before.id
        &&& self.timezone == before.timezone
        &&& self.units == before.units
        &&& self.on_update == before.on_update
    }

    /// The text that the time field shows.
    pub fn time_text(&self) -> (text: String)
        ensures
            text@ == shown_time(self.record.timestamp, self.timezone),
    {
        match self.record.timestamp.clock_in(&self.timezone) {
            Some((hour, minute, _)) => match ClockTime::from_hms(hour, minute, 0) {
                Some(time) => HoursMinutes::new(time).render(),
                None => missing(),
            },
            None => missing(),
        }
    }

    /// The text that the distance field shows: empty for no distance.
    pub fn distance_text(&self) -> (text: String)
        ensures
            text@ == (DistanceField { units: self.units }).text(self.record.distance),
    {
        (DistanceField { units: self.units }).render(&self.record.distance)
    }

    /// The text that the duration field shows: empty for no duration.
    pub fn duration_text(&self) -> (text: String)
        ensures
            text@ == DurationField.text(self.record.duration),
    {
        DurationField.render(&self.record.duration)
    }

    /// The text of the time field was changed to `text`. A time of day to
    /// which the workout can be moved on its day moves it there and hands
    /// the record on; a time of day to which it cannot be moved changes
    /// nothing; text that is no time of day sets the warning of the field.
    pub fn time_changed(&mut self, text: &str)
        requires
            forall|id: UniqueId, record: TimeDistanceRecord|
                call_requires(old(self).on_update, (id, record)),
        ensures
            final(self).same_setting(*old(self)),
            final(self).distance_warning == old(self).distance_warning,
            final(self).duration_warning == old(self).duration_warning,
            final(self).time_warning == (clock_reading(text@) is None),
            match clock_reading(text@) {
                Some(reading) => if moved_in_day(
                    old(self).record.timestamp.seconds as int,
                    old(self).timezone@,
                    reading.0 as int,
                    reading.1 as int,
                    0,
                ) is Some {
                    &&& moved_to_time(
                        old(self).record,
                        final(self).record,
                        old(self).timezone,
                        reading,
                    )
                    &&& call_ensures(old(self).on_update, (old(self).id, final(self).record), ())
                } else {
                    final(self).record == old(self).record
                },
                None => final(self).record == old(self).record,
            },
    {
        proof {
            crate::formats::hours_minutes::lemma_time_of(clock_reading(text@));
        }
        match ClockCodec.parse(text) {
            Ok(time) => {
                self.time_warning = false;
                match self.record.timestamp.at_clock(
                    &self.timezone,
                    time.hour(),
                    time.minute(),
                    time.second(),
                ) {
                    Some(moved) => {
                        self.record.timestamp = moved;
                        (self.on_update)(self.id.clone(), self.record.clone());
                    },
                    None => {},
                }
            },
            Err(_) => {
                self.time_warning = true;
            },
        }
    }

    /// An activity was chosen by its name. The name of an activity makes it
    /// the activity of the workout and hands the record on; any other text
    /// changes nothing.
    pub fn activity_selected(&mut self, name: &str)
        requires
            forall|id: UniqueId, record: TimeDistanceRecord|
                call_requires(old(self).on_update, (id, record)),
        ensures
            final(self).same_setting(*old(self)),
            final(self).time_warning == old(self).time_warning,
            final(self).distance_warning == old(self).distance_warning,
            final(self).duration_warning == old(self).duration_warning,
            match activity_of_text(name@) {
                Some(activity) => {
                    &&& final(self).record == with_activity(old(self).record, activity)
                    &&& call_ensures(old(self).on_update, (old(self).id, final(self).record), ())
                },
                None => final(self).record == old(self).record,
            },
    {
        match ActivityType::try_from(name) {
            Ok(activity) => {
                self.record.activity = activity;
                (self.on_update)(self.id.clone(), self.record.clone());
            },
            Err(_) => {},
        }
    }

    /// The text of the distance field was changed to `text`. A distance
    /// becomes the distance of the workout and the record is handed on; an
    /// empty text changes nothing; any other text sets the warning of the
    /// field.
    pub fn distance_changed(&mut self, text: &str)
        requires
            forall|id: UniqueId, record: TimeDistanceRecord|
                call_requires(old(self).on_update, (id, record)),
        ensures
            final(self).same_setting(*old(self)),
            final(self).time_warning == old(self).time_warning,
            final(self).duration_warning == old(self).duration_warning,
            match (DistanceField { units: old(self).units }).reading(text@) {
                Some(Some(distance)) => {
                    &&& !final(self).distance_warning
                    &&& final(self).record == with_distance(old(self).record, distance)
                    &&& call_ensures(old(self).on_update, (old(self).id, final(self).record), ())
                },
                Some(None) => !final(self).distance_warning && final(self).record == old(
                    self,
                ).record,
                None => final(self).distance_warning && final(self).record == old(self).record,
            },
    {
        match (DistanceField { units: self.units }).parse(text) {
            Ok(Some(distance)) => {
                self.distance_warning = false;
                self.record.distance = Some(distance);
                (self.on_update)(self.id.clone(), self.record.clone());
            },
            Ok(None) => {
                self.distance_warning = false;
            },
            Err(_) => {
                self.distance_warning = true;
            },
        }
    }

    /// The text of the duration field was changed to `text`. A duration
    /// becomes the duration of the workout and the record is handed on; an
    /// empty text changes nothing; any other text sets the warning of the
    /// field.
    pub fn duration_changed(&mut self, text: &str)
        requires
            forall|id: UniqueId, record: TimeDistanceRecord|
                call_requires(old(self).on_update, (id, record)),
        ensures
            final(self).same_setting(*old(self)),
            final(self).time_warning == old(self).time_warning,
            final(self).distance_warning == old(self).distance_warning,
            match DurationField.reading(text@) {
                Some(Some(duration)) => {
                    &&& !final(self).duration_warning
                    &&& final(self).record == with_duration(old(self).record, duration)
                    &&& call_ensures(old(self).on_update, (old(self).id, final(self).record), ())
                },
                Some(None) => !final(self).duration_warning && final(self).record == old(
                    self,
                ).record,
                None => final(self).duration_warning && final(self).record == old(self).record,
            },
    {
        match DurationField.parse(text) {
            Ok(Some(duration)) => {
                self.duration_warning = false;
                self.record.duration = Some(duration);
                (self.on_update)(self.id.clone(), self.record.clone());
            },
            Ok(None) => {
                self.duration_warning = false;
            },
            Err(_) => {
                self.duration_warning = true;
            },
        }
    }
}

} // verus!
