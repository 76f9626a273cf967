//! One day of the log on show: the latest weight and step count, then the
//! workouts, the sets of repetitions and the held sets, each in the order
//! of their time.
use crate::components::about::or_blank;
use crate::components::changes::{put, set_record, values};
use crate::components::rep_duration::{rep_duration_c, rep_duration_row};
use crate::components::set_rep::{set_rep_c, set_rep_row};
use crate::components::steps::steps_c;
use crate::components::time_distance::TimeDistanceEdit;
use crate::components::time_distance_row::{time_distance_c, time_distance_row};
use crate::components::weight::weight_record_c;
use crate::components::widget::{children_of, is_box, is_label, Orientation, Widget};
use crate::dates::Timestamp;
use crate::dates::Timezone;
use crate::i18n::{Text, UnitSystem};
use crate::si::Kilogram;
use crate::trax::order::{by_time, sort_by_time};
use crate::trax::repduration::RepDurationRecord;
use crate::trax::setrep::SetRepRecord;
use crate::trax::steps::StepRecord;
use crate::trax::timedistance::TimeDistanceRecord;
use crate::trax::TraxRecord;
use crate::trax::weight::WeightRecord;
use emseries::UniqueId;
use vstd::prelude::*;

verus! {

/// The last weighing among `s`, if there is one.
pub open spec fn last_weight(s: Seq<TraxRecord>) -> Option<WeightRecord>
    decreases s.len(),
{
    if s.len() == 0 {
        None
    } else {
        match s.last() {
            TraxRecord::Weight(rec) => Some(rec),
            _ => last_weight(s.drop_last()),
        }
    }
}

/// The last step count among `s`, if there is one.
pub open spec fn last_steps(s: Seq<TraxRecord>) -> Option<StepRecord>
    decreases s.len(),
{
    if s.len() == 0 {
        None
    } else {
        match s.last() {
            TraxRecord::Steps(rec) => Some(rec),
            _ => last_steps(s.drop_last()),
        }
    }
}

/// The workouts among `s`, in their order.
pub open spec fn workouts(s: Seq<TraxRecord>) -> Seq<TimeDistanceRecord>
    decreases s.len(),
{
    if s.len() == 0 {
        Seq::<TimeDistanceRecord>::empty()
    } else {
        match s.last() {
            TraxRecord::TimeDistance(rec) => workouts(s.drop_last()).push(rec),
            _ => workouts(s.drop_last()),
        }
    }
}

/// The sets of repetitions among `s`, in their order.
pub open spec fn set_reps(s: Seq<TraxRecord>) -> Seq<SetRepRecord>
    decreases s.len(),
{
    if s.len() == 0 {
        Seq::<SetRepRecord>::empty()
    } else {
        match s.last() {
            TraxRecord::SetRep(rec) => set_reps(s.drop_last()).push(rec),
            _ => set_reps(s.drop_last()),
        }
    }
}

/// The held sets among `s`, in their order.
pub open spec fn held_sets(s: Seq<TraxRecord>) -> Seq<RepDurationRecord>
    decreases s.len(),
{
    if s.len() == 0 {
        Seq::<RepDurationRecord>::empty()
    } else {
        match s.last() {
            TraxRecord::RepDuration(rec) => held_sets(s.drop_last()).push(rec),
            _ => held_sets(s.drop_last()),
        }
    }
}

/// The labels of the first row of a day: the weight, where there is one,
/// and then the step count, where there is one.
pub open spec fn first_row_texts(
    weight: Option<WeightRecord>,
    steps: Option<StepRecord>,
    text: Text,
    units: UnitSystem,
) -> Seq<Seq<char>> {
    (match weight {
        Some(rec) => seq![or_blank(text.phrase("mass"@, Text::mass_args(rec.weight, units)))],
        None => Seq::<Seq<char>>::empty(),
    }) + (match steps {
        Some(rec) => seq![or_blank(text.phrase("step-count"@, Text::count_args(rec.steps)))],
        None => Seq::<Seq<char>>::empty(),
    })
}

/// Whether `widget` is a horizontal box, spaced by five, of labels with
/// these texts.
pub open spec fn row_of_labels(widget: Widget, texts: Seq<Seq<char>>) -> bool {
    &&& is_box(widget, Orientation::Horizontal, 5)
    &&& children_of(widget).len() == texts.len()
    &&& forall|i: int| 0 <= i < texts.len() ==> is_label(#[trigger] children_of(widget)[i], texts[i])
}

/// Whether `widget` shows the day on which `records` were made: a vertical
/// box, spaced by five, that holds a first row with the latest weight and
/// the latest step count, then a row for each workout, then one for each
/// record of sets of repetitions, then one for each record of held sets,
/// each group in the order of time. Comments are not shown.
pub open spec fn day_view(
    widget: Widget,
    records: Seq<TraxRecord>,
    timezone: Timezone,
    text: Text,
    units: UnitSystem,
) -> bool {
    let sorted = by_time(records);
    let rows = children_of(widget);
    let td = workouts(sorted);
    let sr = set_reps(sorted);
    let rd = held_sets(sorted);
    &&& is_box(widget, Orientation::Vertical, 5)
    &&& rows.len() == 1 + td.len() + sr.len() + rd.len()
    &&& row_of_labels(rows[0], first_row_texts(last_weight(sorted), last_steps(sorted), text, units))
    &&& forall|i: int|
        0 <= i < td.len() ==> time_distance_row(#[trigger] rows[1 + i], td[i], timezone, text, units)
    &&& forall|i: int| 0 <= i < sr.len() ==> set_rep_row(#[trigger] rows[1 + td.len() + i], sr[i])
    &&& forall|i: int|
        0 <= i < rd.len() ==> rep_duration_row(#[trigger] rows[1 + td.len() + sr.len() + i], rd[i])
}

/// The text of a message, or an empty text where the words lack it.
fn shown(message: Option<String>) -> (text: String)
    ensures
        text@ == or_blank(crate::i18n::text::text_of(message)),
{
    match message {
        Some(text) => text,
        None => String::new(),
    }
}

/// What a day shows of the records made on it.
pub fn day_c(data: Vec<TraxRecord>, timezone: &Timezone, text: &Text, units: &UnitSystem) -> (view:
    Widget)
    ensures
        day_view(view, data@, *timezone, *text, *units),
{
    let sorted = sort_by_time(data);
    let ghost all = sorted@;
    let mut first: Vec<Widget> = Vec::new();
    let mut weight: Option<Widget> = None;
    let mut steps: Option<Widget> = None;
    let mut td_rows: Vec<Widget> = Vec::new();
    let mut sr_rows: Vec<Widget> = Vec::new();
    let mut rd_rows: Vec<Widget> = Vec::new();
    let mut i: usize = 0;
    assert(all.take(0) =~= Seq::<TraxRecord>::empty());
    while i < sorted.len()
        invariant
            i <= sorted@.len(),
            all == sorted@,
            weight is Some <==> last_weight(all.take(i as int)) is Some,
            weight matches Some(w) ==> is_label(
                w,
                or_blank(
                    text.phrase(
                        "mass"@,
                        Text::mass_args(last_weight(all.take(i as int))->0.weight, *units),
                    ),
                ),
            ),
            steps is Some <==> last_steps(all.take(i as int)) is Some,
            steps matches Some(s) ==> is_label(
                s,
                or_blank(
                    text.phrase(
                        "step-count"@,
                        Text::count_args(last_steps(all.take(i as int))->0.steps),
                    ),
                ),
            ),
            td_rows@.len() == workouts(all.take(i as int)).len(),
            forall|k: int|
                0 <= k < td_rows@.len() ==> time_distance_row(
                    #[trigger] td_rows@[k],
                    workouts(all.take(i as int))[k],
                    *timezone,
                    *text,
                    *units,
                ),
            sr_rows@.len() == set_reps(all.take(i as int)).len(),
            forall|k: int|
                0 <= k < sr_rows@.len() ==> set_rep_row(
                    #[trigger] sr_rows@[k],
                    set_reps(all.take(i as int))[k],
                ),
            rd_rows@.len() == held_sets(all.take(i as int)).len(),
            forall|k: int|
                0 <= k < rd_rows@.len() ==> rep_duration_row(
                    #[trigger] rd_rows@[k],
                    held_sets(all.take(i as int))[k],
                ),
        decreases sorted@.len() - i,
    {
        proof {
            let next = all.take(i + 1);
            assert(next.drop_last() =~= all.take(i as int));
            assert(next.last() == all[i as int]);
        }
        match &sorted[i] {
            TraxRecord::Comments(_) => {},
            TraxRecord::RepDuration(rec) => {
                rd_rows.push(rep_duration_c(rec));
            },
            TraxRecord::SetRep(rec) => {
                sr_rows.push(set_rep_c(rec));
            },
            TraxRecord::Steps(rec) => {
                steps = Some(Widget::Label(shown(steps_c(rec, text))));
            },
            TraxRecord::TimeDistance(rec) => {
                td_rows.push(time_distance_c(rec, timezone, text, units));
            },
            TraxRecord::Weight(rec) => {
                weight = Some(Widget::Label(shown(weight_record_c(rec, text, units))));
            },
        }
        i += 1;
    }
    assert(all.take(all.len() as int) =~= all);
    if let Some(w) = weight {
        first.push(w);
    }
    if let Some(s) = steps {
        first.push(s);
    }
    let ghost texts = first_row_texts(last_weight(all), last_steps(all), *text, *units);
    assert(first@.len() == texts.len());
    let first_row = Widget::Box { orientation: Orientation::Horizontal, spacing: 5, children: first };
    assert(row_of_labels(first_row, texts));
    let ghost td = td_rows@;
    let ghost sr = sr_rows@;
    let ghost rd = rd_rows@;
    let mut rows: Vec<Widget> = Vec::new();
    rows.push(first_row);
    rows.append(&mut td_rows);
    rows.append(&mut sr_rows);
    rows.append(&mut rd_rows);
    assert(rows@ =~= seq![first_row] + td + sr + rd);
    assert forall|k: int| 0 <= k < td.len() implies rows@[1 + k] == td[k] by {}
    assert forall|k: int| 0 <= k < sr.len() implies rows@[1 + td.len() + k] == sr[k] by {}
    assert forall|k: int| 0 <= k < rd.len() implies rows@[1 + td.len() + sr.len() + k] == rd[k] by {}
    Widget::Box { orientation: Orientation::Vertical, spacing: 5, children: rows }
}


/// The form that edits a day: the weight and the step count under edit,
/// whether each is a record of the store or one to add, the changes made so
/// far, and the form for the workouts.
pub struct DayEdit {
    pub weight_id: UniqueId,
    pub weight: WeightRecord,
    /// Whether the weight under edit is yet to be added to the store.
    pub weight_is_new: bool,
    pub steps_id: UniqueId,
    pub steps: StepRecord,
    /// Whether the step count under edit is yet to be added to the store.
    pub steps_is_new: bool,
    /// Changes to records of the store.
    pub updates: Vec<(UniqueId, TraxRecord)>,
    /// Records to add to the store.
    pub new_records: Vec<(UniqueId, TraxRecord)>,
    pub time_distance: TimeDistanceEdit,
}

/// The last weighing among `data` with its identifier, if there is one.
pub open spec fn weight_of(data: Seq<(UniqueId, TraxRecord)>) -> Option<(UniqueId, WeightRecord)>
    decreases data.len(),
{
    if data.len() == 0 {
        None
    } else {
        match data.last().1 {
            TraxRecord::Weight(rec) => Some((data.last().0, rec)),
            _ => weight_of(data.drop_last()),
        }
    }
}

/// The last step count among `data` with its identifier, if there is one.
pub open spec fn steps_of(data: Seq<(UniqueId, TraxRecord)>) -> Option<(UniqueId, StepRecord)>
    decreases data.len(),
{
    if data.len() == 0 {
        None
    } else {
        match data.last().1 {
            TraxRecord::Steps(rec) => Some((data.last().0, rec)),
            _ => steps_of(data.drop_last()),
        }
    }
}

/// The workouts among `data` with their identifiers, in their order.
pub open spec fn workouts_of(data: Seq<(UniqueId, TraxRecord)>) -> Seq<
    (UniqueId, TimeDistanceRecord),
>
    decreases data.len(),
{
    if data.len() == 0 {
        Seq::<(UniqueId, TimeDistanceRecord)>::empty()
    } else {
        match data.last().1 {
            TraxRecord::TimeDistance(rec) => workouts_of(data.drop_last()).push(
                (data.last().0, rec),
            ),
            _ => workouts_of(data.drop_last()),
        }
    }
}

/// Each workout as a record of the log.
pub open spec fn as_records(list: Seq<(UniqueId, TimeDistanceRecord)>) -> Seq<
    (UniqueId, TraxRecord),
> {
    Seq::new(list.len(), |i: int| (list[i].0, TraxRecord::TimeDistance(list[i].1)))
}

impl DayEdit {
    /// The form for a day that begins at `midnight` and has the records
    /// `data`. The weight under edit is the last weighing of the day, or,
    /// where the day has none, a weight of zero at midnight that is yet to be
    /// added under the identifier `fresh_weight`; the step count likewise,
    /// under `fresh_steps`. The workouts of the day go to the form for
    /// workouts. Nothing is changed yet.
    pub fn new(
        midnight: Timestamp,
        data: Vec<(UniqueId, TraxRecord)>,
        fresh_weight: UniqueId,
        fresh_steps: UniqueId,
    ) -> (edit: DayEdit)
        ensures
            edit.weight_is_new == (weight_of(data@) is None),
            (edit.weight_id, edit.weight) == (match weight_of(data@) {
                Some(found) => found,
                None => (fresh_weight, (WeightRecord { date: midnight, weight: Kilogram { units: 0 } })),
            }),
            edit.steps_is_new == (steps_of(data@) is None),
            (edit.steps_id, edit.steps) == (match steps_of(data@) {
                Some(found) => found,
                None => (fresh_steps, (StepRecord { date: midnight, steps: 0 })),
            }),
            edit.time_distance.records@ == workouts_of(data@),
            edit.time_distance.updated_records@.len() == 0,
            edit.time_distance.new_records@.len() == 0,
            edit.updates@.len() == 0,
            edit.new_records@.len() == 0,
    {
        let ghost all = data@;
        let mut weight: Option<(UniqueId, WeightRecord)> = None;
        let mut steps: Option<(UniqueId, StepRecord)> = None;
        let mut workouts: Vec<(UniqueId, TimeDistanceRecord)> = Vec::new();
        assert(all.take(0) =~= Seq::<(UniqueId, TraxRecord)>::empty());
        for entry in it: data
            invariant
                it.seq() == all,
                weight == weight_of(all.take(it.index() as int)),
                steps == steps_of(all.take(it.index() as int)),
                workouts@ == workouts_of(all.take(it.index() as int)),
        {
            proof {
                let next = all.take(it.index() + 1);
                assert(next.drop_last() =~= all.take(it.index() as int));
                assert(next.last() == entry);
            }
            let (id, record) = entry;
            match record {
                TraxRecord::Weight(rec) => {
                    weight = Some((id, rec));
                },
                TraxRecord::Steps(rec) => {
                    steps = Some((id, rec));
                },
                TraxRecord::TimeDistance(rec) => {
                    workouts.push((id, rec));
                },
                _ => {},
            }
        }
        assert(all.take(all.len() as int) =~= all);
        let (weight_id, weight, weight_is_new) = match weight {
            Some((id, rec)) => (id, rec, false),
            None => (fresh_weight, WeightRecord::new(midnight.clone(), Kilogram::new(0)), true),
        };
        let (steps_id, steps, steps_is_new) = match steps {
            Some((id, rec)) => (id, rec, false),
            None => (fresh_steps, StepRecord::new(midnight, 0), true),
        };
        DayEdit {
            weight_id,
            weight,
            weight_is_new,
            steps_id,
            steps,
            steps_is_new,
            updates: Vec::new(),
            new_records: Vec::new(),
            time_distance: TimeDistanceEdit::new(workouts),
        }
    }

    /// The weight field handed on the record `record` for `id`: it is a
    /// record to add where the weight under edit is new, and a change to a
    /// record of the store where it is not.
    pub fn weight_updated(&mut self, id: UniqueId, record: WeightRecord)
        ensures
            final(self).updates@ == (if old(self).weight_is_new {
                old(self).updates@
            } else {
                put(old(self).updates@, id, TraxRecord::Weight(record))
            }),
            final(self).new_records@ == (if old(self).weight_is_new {
                put(old(self).new_records@, id, TraxRecord::Weight(record))
            } else {
                old(self).new_records@
            }),
            final(self).weight_id == old(self).weight_id,
            final(self).weight == old(self).weight,
            final(self).weight_is_new == old(self).weight_is_new,
            final(self).steps_id == old(self).steps_id,
            final(self).steps == old(self).steps,
            final(self).steps_is_new == old(self).steps_is_new,
            final(self).time_distance == old(self).time_distance,
    {
        if self.weight_is_new {
            set_record(&mut self.new_records, id, TraxRecord::Weight(record));
        } else {
            set_record(&mut self.updates, id, TraxRecord::Weight(record));
        }
    }

    /// The steps field handed on the record `record` for `id`: it is a
    /// record to add where the step count under edit is new, and a change to
    /// a record of the store where it is not.
    pub fn steps_updated(&mut self, id: UniqueId, record: StepRecord)
        ensures
            final(self).updates@ == (if old(self).steps_is_new {
                old(self).updates@
            } else {
                put(old(self).updates@, id, TraxRecord::Steps(record))
            }),
            final(self).new_records@ == (if old(self).steps_is_new {
                put(old(self).new_records@, id, TraxRecord::Steps(record))
            } else {
                old(self).new_records@
            }),
            final(self).weight_id == old(self).weight_id,
            final(self).weight == old(self).weight,
            final(self).weight_is_new == old(self).weight_is_new,
            final(self).steps_id == old(self).steps_id,
            final(self).steps == old(self).steps,
            final(self).steps_is_new == old(self).steps_is_new,
            final(self).time_distance == old(self).time_distance,
    {
        if self.steps_is_new {
            set_record(&mut self.new_records, id, TraxRecord::Steps(record));
        } else {
            set_record(&mut self.updates, id, TraxRecord::Steps(record));
        }
    }

    /// The save button was clicked. What is to be saved: as updates, the
    /// changes to the weight and the step count and then the changes to
    /// workouts, each with the identifier of its record; as new records, the
    /// weight or step count that was added and then the workouts that were
    /// added.
    pub fn save(self) -> (saved: (Vec<(UniqueId, TraxRecord)>, Vec<TraxRecord>))
        ensures
            saved.0@ == self.updates@ + as_records(self.time_distance.updated_records@),
            saved.1@ == values(self.new_records@) + values(
                as_records(self.time_distance.new_records@),
            ),
    {
        let DayEdit { updates, new_records, time_distance, .. } = self;
        let TimeDistanceEdit { updated_records, new_records: new_workouts, .. } = time_distance;
        let ghost changed = updates@;
        let ghost changed_workouts = updated_records@;
        let ghost added = new_records@;
        let ghost added_workouts = new_workouts@;
        let mut updated = updates;
        for entry in it: updated_records
            invariant
                it.seq() == changed_workouts,
                updated@ == changed + as_records(changed_workouts.take(it.index() as int)),
        {
            let (id, record) = entry;
            updated.push((id, TraxRecord::TimeDistance(record)));
            assert(updated@ =~= changed + as_records(changed_workouts.take(it.index() + 1)));
        }
        assert(changed_workouts.take(changed_workouts.len() as int) =~= changed_workouts);
        let mut new: Vec<TraxRecord> = Vec::new();
        for entry in it: new_records
            invariant
                it.seq() == added,
                new@ == values(added.take(it.index() as int)),
        {
            let (_, record) = entry;
            new.push(record);
            assert(new@ =~= values(added.take(it.index() + 1)));
        }
        assert(added.take(added.len() as int) =~= added);
        for entry in it: new_workouts
            invariant
                it.seq() == added_workouts,
                new@ == values(added) + values(
                    as_records(added_workouts.take(it.index() as int)),
                ),
        {
            let (_, record) = entry;
            new.push(TraxRecord::TimeDistance(record));
            assert(new@ =~= values(added) + values(
                as_records(added_workouts.take(it.index() + 1)),
            ));
        }
        assert(added_workouts.take(added_workouts.len() as int) =~= added_workouts);
        (updated, new)
    }
}

} // verus!
