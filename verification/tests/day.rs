use emseries::UniqueId;
use fitnesstrax_core::components::changes::{find, lookup_record, set_record};
use fitnesstrax_core::components::{
    day_c, days_on_show, DayEdit, Orientation, TimeDistanceEdit, Widget,
};
use fitnesstrax_core::config::LanguageId;
use fitnesstrax_core::dates::{CalendarDate, Timestamp, Timezone};
use fitnesstrax_core::i18n::{Text, UnitSystem};
use fitnesstrax_core::range::Range;
use fitnesstrax_core::si::{Kilogram, Meter, Second};
use fitnesstrax_core::trax::comments::Comments;
use fitnesstrax_core::trax::order::{is_not_after, sort_by_time};
use fitnesstrax_core::trax::repduration::{ActivityType as Held, RepDurationRecord};
use fitnesstrax_core::trax::setrep::{ActivityType as Counted, SetRepRecord};
use fitnesstrax_core::trax::steps::StepRecord;
use fitnesstrax_core::trax::timedistance::{ActivityType, TimeDistanceRecord};
use fitnesstrax_core::trax::weight::WeightRecord;
use fitnesstrax_core::trax::TraxRecord;

fn zone() -> Timezone {
    Timezone::parse("America/New_York").unwrap()
}

fn midnight() -> Timestamp {
    CalendarDate::from_ymd(2019, 5, 5).unwrap().start_in(&zone()).unwrap()
}

fn at(hour: i64, nanos: u32) -> Timestamp {
    Timestamp::new(midnight().seconds + hour * 3600, nanos, zone())
}

fn weight(hour: i64, kg: u16) -> TraxRecord {
    TraxRecord::weight(at(hour, 0), Kilogram::from_kilograms(kg))
}

fn steps(hour: i64, count: u32) -> TraxRecord {
    TraxRecord::Steps(StepRecord::new(at(hour, 0), count))
}

fn run(hour: i64, meters: u32) -> TimeDistanceRecord {
    TimeDistanceRecord::new(
        at(hour, 0),
        ActivityType::Running,
        Some(Meter::from_meters(meters)),
        Some(Second::from_seconds(1800)),
        None,
    )
}

fn label(text: &str) -> Widget {
    Widget::Label(String::from(text))
}

fn row(children: Vec<Widget>) -> Widget {
    Widget::Box { orientation: Orientation::Horizontal, spacing: 5, children }
}

fn column(children: Vec<Widget>) -> Widget {
    Widget::Box { orientation: Orientation::Vertical, spacing: 5, children }
}

#[test]
fn records_are_ordered_by_time_and_equal_times_keep_their_order() {
    let records = vec![
        weight(9, 3),
        weight(7, 1),
        TraxRecord::weight(at(8, 5), Kilogram::from_kilograms(22)),
        weight(8, 2),
        TraxRecord::weight(at(8, 5), Kilogram::from_kilograms(23)),
        weight(7, 11),
    ];
    let sorted = sort_by_time(records.clone());
    assert_eq!(
        sorted,
        vec![
            records[1].clone(),
            records[5].clone(),
            records[3].clone(),
            records[2].clone(),
            records[4].clone(),
            records[0].clone(),
        ]
    );
    assert_eq!(sort_by_time(vec![]), vec![]);
    assert!(is_not_after(&at(7, 0), &at(7, 0)));
    assert!(is_not_after(&at(7, 0), &at(7, 1)));
    assert!(!is_not_after(&at(7, 1), &at(7, 0)));
    assert!(is_not_after(&at(6, 9), &at(7, 0)));
}

#[test]
fn a_day_shows_the_latest_weight_and_steps_and_then_the_activities() {
    let en = Text::new(LanguageId::english());
    let records = vec![
        TraxRecord::TimeDistance(run(18, 5000)),
        weight(20, 71),
        steps(21, 9000),
        TraxRecord::SetRep(SetRepRecord::new(at(12, 0), Counted::Pushups, vec![10, 12])),
        weight(6, 70),
        TraxRecord::Comments(Comments::new(at(1, 0), String::from("rest"))),
        TraxRecord::RepDuration(RepDurationRecord::new(
            at(13, 0),
            Held::Planks,
            vec![Second::from_seconds(60)],
        )),
        TraxRecord::TimeDistance(run(7, 3000)),
        steps(9, 4000),
    ];
    assert_eq!(
        day_c(records, &zone(), &en, &UnitSystem::SI),
        column(vec![
            row(vec![
                label("\u{2068}71.00\u{2069} kilograms"),
                label("\u{2068}9000\u{2069} steps"),
            ]),
            row(vec![label("07:00"), label("Running"), label("3.00"), label("30:00")]),
            row(vec![label("18:00"), label("Running"), label("5.00"), label("30:00")]),
            row(vec![label("Pushups"), label("10 12")]),
            row(vec![label("Planks"), label("60 s")]),
        ])
    );
    assert_eq!(day_c(vec![], &zone(), &en, &UnitSystem::SI), column(vec![row(vec![])]));
    assert_eq!(
        day_c(vec![steps(9, 1)], &zone(), &en, &UnitSystem::SI),
        column(vec![row(vec![label("1 step")])])
    );
}

#[test]
fn the_history_shows_the_latest_day_first() {
    let day = |n: u32| CalendarDate::from_ymd(2019, 5, n).unwrap();
    assert_eq!(days_on_show(&Range::new(day(1), day(4))), vec![day(4), day(3), day(2), day(1)]);
    assert_eq!(days_on_show(&Range::new(day(4), day(4))), vec![day(4)]);
    assert_eq!(days_on_show(&Range::new(day(4), day(1))), vec![]);
}

#[test]
fn changes_are_kept_once_for_each_record() {
    let (a, b, c) = (UniqueId::new(), UniqueId::new(), UniqueId::new());
    let mut changes: Vec<(UniqueId, u32)> = Vec::new();
    set_record(&mut changes, a.clone(), 1);
    set_record(&mut changes, b.clone(), 2);
    set_record(&mut changes, a.clone(), 3);
    assert_eq!(changes, vec![(a.clone(), 3), (b.clone(), 2)]);
    assert_eq!(find(&changes, &a), 0);
    assert_eq!(find(&changes, &b), 1);
    assert_eq!(find(&changes, &c), 2);
    assert_eq!(lookup_record(&changes, &a), Some(&3));
    assert_eq!(lookup_record(&changes, &c), None);
}

#[test]
fn the_form_of_a_day_edits_what_the_day_has_and_adds_what_it_lacks() {
    let (w, s, t) = (UniqueId::new(), UniqueId::new(), UniqueId::new());
    let (fresh_w, fresh_s) = (UniqueId::new(), UniqueId::new());
    let data = vec![
        (UniqueId::new(), weight(6, 70)),
        (t.clone(), TraxRecord::TimeDistance(run(7, 3000))),
        (w.clone(), weight(20, 71)),
        (s.clone(), steps(9, 4000)),
    ];
    let mut edit = DayEdit::new(midnight(), data, fresh_w.clone(), fresh_s.clone());
    assert_eq!(edit.weight_id, w);
    assert_eq!(edit.weight, WeightRecord::new(at(20, 0), Kilogram::from_kilograms(71)));
    assert!(!edit.weight_is_new);
    assert_eq!(edit.steps_id, s);
    assert!(!edit.steps_is_new);
    assert_eq!(edit.time_distance.records, vec![(t.clone(), run(7, 3000))]);

    edit.weight_updated(w.clone(), WeightRecord::new(at(20, 0), Kilogram::from_kilograms(72)));
    edit.weight_updated(w.clone(), WeightRecord::new(at(20, 0), Kilogram::from_kilograms(73)));
    edit.steps_updated(s.clone(), StepRecord::new(at(9, 0), 4500));
    edit.time_distance.record_updated(t.clone(), run(7, 3500));
    let added = UniqueId::new();
    edit.time_distance.add_workout(added.clone(), midnight());
    edit.time_distance.new_record_updated(added.clone(), run(0, 1000));

    let (updated, new) = edit.save();
    assert_eq!(
        updated,
        vec![
            (w, weight(20, 73)),
            (s, steps(9, 4500)),
            (t, TraxRecord::TimeDistance(run(7, 3500))),
        ]
    );
    assert_eq!(new, vec![TraxRecord::TimeDistance(run(0, 1000))]);

    let mut empty = DayEdit::new(midnight(), vec![], fresh_w.clone(), fresh_s.clone());
    assert!(empty.weight_is_new && empty.steps_is_new);
    assert_eq!(empty.weight_id, fresh_w);
    assert_eq!(empty.weight, WeightRecord::new(midnight(), Kilogram::new(0)));
    assert_eq!(empty.steps, StepRecord::new(midnight(), 0));
    empty.weight_updated(fresh_w.clone(), WeightRecord::new(midnight(), Kilogram::from_kilograms(70)));
    empty.steps_updated(fresh_s, StepRecord::new(midnight(), 12));
    let (updated, new) = empty.save();
    assert_eq!(updated, vec![]);
    assert_eq!(
        new,
        vec![
            TraxRecord::weight(midnight(), Kilogram::from_kilograms(70)),
            steps(0, 12),
        ]
    );
}

#[test]
fn the_form_for_workouts_keeps_changes_and_additions_apart() {
    let (a, b) = (UniqueId::new(), UniqueId::new());
    let mut edit = TimeDistanceEdit::new(vec![(a.clone(), run(7, 3000))]);
    edit.add_workout(b.clone(), midnight());
    assert_eq!(
        edit.new_records,
        vec![(
            b.clone(),
            TimeDistanceRecord::new(midnight(), ActivityType::Cycling, None, None, None)
        )]
    );
    edit.record_updated(a.clone(), run(7, 3100));
    edit.record_updated(a.clone(), run(7, 3200));
    edit.new_record_updated(b.clone(), run(8, 100));
    assert_eq!(edit.records, vec![(a.clone(), run(7, 3000))]);
    assert_eq!(edit.updated_records(), vec![(a.clone(), run(7, 3200))]);
    assert_eq!(edit.new_records(), vec![(b.clone(), run(8, 100))]);
    let (updated, new) = edit.changes();
    assert_eq!(updated, vec![(a, run(7, 3200))]);
    assert_eq!(new, vec![(b, run(8, 100))]);
}
