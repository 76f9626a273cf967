use fitnesstrax_core::components::basics::dropmenu::Menu;
use fitnesstrax_core::components::set_rep::{activity_c, sets_c};
use emseries::UniqueId;
use fitnesstrax_core::components::{
    date_c, date_selector_c, distance_c, distance_edit_c, dropmenu_c, duration_c,
    duration_edit_c, labeled_widget_c, language_menu, rep_duration_c, set_rep_c, steps_c,
    steps_edit_c, timezone_menu, units_menu,
    text_entry_c, time_c, time_distance_c, time_distance_record_edit_c,
    time_edit_c, validated_text_entry_c, weight_record_c, weight_record_edit_c, About, Component,
    Container, DateSelector, LabelPosition, MenuOptions, Orientation, Page, RangeSelector,
    SwappableComponent, Widget,
};
use fitnesstrax_core::formats::codec::{
    ClockCodec, DistanceCodec, DistanceField, DurationCodec, DurationField, MassCodec,
    StepsCodec, UnitsCodec,
};
use fitnesstrax_core::formats::Codec;
use fitnesstrax_core::config::LanguageId;
use fitnesstrax_core::i18n::Text;
use fitnesstrax_core::si::Kilogram;
use fitnesstrax_core::trax::steps::StepRecord;
use fitnesstrax_core::trax::weight::WeightRecord;
use fitnesstrax_core::dates::{CalendarDate, Timestamp, Timezone};
use fitnesstrax_core::errors::Error;
use fitnesstrax_core::formats::steps::{parse_steps, render_steps};
use fitnesstrax_core::formats::ClockTime;
use fitnesstrax_core::i18n::UnitSystem;
use fitnesstrax_core::range::{DateRange, Range};
use fitnesstrax_core::si::{Meter, Second};
use fitnesstrax_core::trax::repduration::RepDurationRecord;
use fitnesstrax_core::trax::setrep::{ActivityType, SetRepRecord};
use fitnesstrax_core::trax::timedistance::{ActivityType as Activity, TimeDistanceRecord};
use std::sync::{Arc, RwLock};

#[test]
fn it_calls_callbacks_on_change() {
    let change_param = Arc::new(RwLock::new(String::new()));
    let mut entry = {
        let change_param = change_param.clone();
        text_entry_c("", move |s: &str| {
            let mut c = change_param.write().unwrap();
            c.clear();
            c.push_str(s);
        })
    };
    entry.set_text("abcdefg");
    assert_eq!(change_param.read().unwrap().as_str(), "abcdefg");
    assert_eq!(entry.text, "abcdefg");
}

#[test]
fn a_validated_entry_hands_on_what_reads_and_marks_what_does_not() {
    let seen: Arc<RwLock<Vec<u32>>> = Arc::new(RwLock::new(Vec::new()));
    let mut entry = {
        let seen = seen.clone();
        validated_text_entry_c(12u32, StepsCodec, move |steps: u32| {
            seen.write().unwrap().push(steps)
        })
    };
    assert_eq!(entry.text, "12");
    assert!(!entry.warning);
    entry.set_text("125");
    assert!(!entry.warning);
    assert_eq!(*seen.read().unwrap(), vec![125]);
    entry.set_text("125x");
    assert!(entry.warning);
    assert_eq!(entry.text, "125x");
    assert_eq!(*seen.read().unwrap(), vec![125]);
    entry.set_text("1250");
    assert!(!entry.warning);
    assert_eq!(*seen.read().unwrap(), vec![125, 1250]);
}

#[test]
fn steps_are_plain_non_negative_integers() {
    assert_eq!(render_steps(0), "0");
    assert_eq!(render_steps(10_342), "10342");
    assert_eq!(render_steps(u32::MAX), "4294967295");
    assert_eq!(parse_steps("10342"), Ok(10_342));
    assert_eq!(parse_steps("0"), Ok(0));
    assert_eq!(parse_steps("007"), Ok(7));
    assert_eq!(parse_steps("+7"), Ok(7));
    assert_eq!(parse_steps("4294967295"), Ok(u32::MAX));
    for text in ["", "-1", "1.0", "1.", "abc", "4294967296", "99999999999999999999999", " 1", "1 ", "+", "1e3"] {
        assert_eq!(parse_steps(text), Err(Error::ParseStepsError), "{:?}", text);
    }
    for steps in [0u32, 1, 9, 10, 99, 100, 65_535, 1_000_000, u32::MAX] {
        assert_eq!(parse_steps(&render_steps(steps)), Ok(steps));
    }
}

#[test]
fn a_menu_starts_on_the_current_option_and_reports_the_chosen_one() {
    let chosen = Arc::new(RwLock::new(String::new()));
    let mut menu: Menu<_> = {
        let chosen = chosen.clone();
        dropmenu_c(
            MenuOptions(vec![("SI", "SI (kg, km, m/s)"), ("USA", "USA (lbs, mi, mph)")]),
            "USA",
            move |id: &str| {
                let mut c = chosen.write().unwrap();
                c.clear();
                c.push_str(id);
            },
        )
    };
    assert_eq!(menu.ids, vec!["SI", "USA"]);
    assert_eq!(menu.labels, vec!["SI (kg, km, m/s)", "USA (lbs, mi, mph)"]);
    assert_eq!(menu.active, Some(1));
    assert_eq!(menu.active_id(), Some("USA"));
    assert_eq!(chosen.read().unwrap().as_str(), "");
    menu.select(0);
    assert_eq!(menu.active, Some(0));
    assert_eq!(menu.active_id(), Some("SI"));
    assert_eq!(chosen.read().unwrap().as_str(), "SI");
}

#[test]
fn a_menu_without_the_current_option_has_nothing_chosen() {
    let menu = dropmenu_c(MenuOptions(vec![("en", "English"), ("eo", "Esperanto")]), "fr", |_: &str| ());
    assert_eq!(menu.active, None);
    assert_eq!(menu.active_id(), None);
    let twice = dropmenu_c(MenuOptions(vec![("a", "1"), ("b", "2"), ("b", "3")]), "b", |_: &str| ());
    assert_eq!(twice.active, Some(1));
    let empty = dropmenu_c(MenuOptions(vec![]), "b", |_: &str| ());
    assert_eq!(empty.active, None);
    assert_eq!(empty.ids.len(), 0);
}

#[test]
fn a_page_keeps_its_component_when_the_label_changes() {
    let mut page = Page::new("History", 42u8);
    assert_eq!(page.label, "History");
    page.set_label("Historio");
    assert_eq!(page.label, "Historio");
    assert_eq!(page.component, 42);
}

#[test]
fn a_range_selector_reports_the_whole_range() {
    let day = |n: u32| CalendarDate::from_ymd(2019, 5, n).unwrap();
    let told: Arc<RwLock<Vec<DateRange>>> = Arc::new(RwLock::new(Vec::new()));
    let mut selector = {
        let told = told.clone();
        RangeSelector::new(Range::new(day(1), day(15)), move |range: DateRange| {
            told.write().unwrap().push(range)
        })
    };
    assert!(!selector.visible);
    selector.show();
    assert!(selector.visible);
    selector.start_selected(day(3));
    selector.end_selected(day(9));
    selector.start_selected(day(12));
    assert_eq!(
        *told.read().unwrap(),
        vec![
            Range::new(day(3), day(15)),
            Range::new(day(3), day(9)),
            Range::new(day(12), day(9)),
        ]
    );
    assert_eq!(selector.range, Range::new(day(12), day(9)));
}

#[test]
fn sets_are_shown_with_blanks_between() {
    assert_eq!(sets_c(&vec![]), "");
    assert_eq!(sets_c(&vec![15]), "15");
    assert_eq!(sets_c(&vec![15, 0, 20]), "15 0 20");
    assert_eq!(activity_c(&ActivityType::Pushups), "Pushups");
    assert_eq!(activity_c(&ActivityType::Situps), "Situps");
    assert_eq!(activity_c(&ActivityType::Squats), "Squats");
    let zone = Timezone::utc();
    let record = SetRepRecord::new(Timestamp::new(0, 0, zone), ActivityType::Situps, vec![25, 25, 10]);
    assert_eq!(
        set_rep_c(&record),
        row(5, vec![label("Situps"), label("25 25 10")])
    );
}

fn label(text: &str) -> Widget {
    Widget::Label(String::from(text))
}

fn row(spacing: u32, children: Vec<Widget>) -> Widget {
    Widget::Box { orientation: Orientation::Horizontal, spacing, children }
}

fn column(spacing: u32, children: Vec<Widget>) -> Widget {
    Widget::Box { orientation: Orientation::Vertical, spacing, children }
}

#[test]
fn a_label_stands_before_or_after_its_widget() {
    assert_eq!(
        labeled_widget_c("Units", label("SI"), LabelPosition::Before),
        row(5, vec![label("Units"), label("SI")])
    );
    assert_eq!(
        labeled_widget_c("kg", label("70.00"), LabelPosition::After),
        row(5, vec![label("70.00"), label("kg")])
    );
}

#[test]
fn a_container_holds_at_most_one_widget() {
    let nothing: Option<Widget> = None;
    let mut container = Container::new(nothing);
    assert_eq!(container.widget, row(0, vec![]));
    container.swap(Some(label("first")));
    assert_eq!(container.widget, row(0, vec![label("first")]));
    container.swap(Some(labeled_widget_c("a", label("b"), LabelPosition::Before)));
    assert_eq!(container.widget, row(0, vec![row(5, vec![label("a"), label("b")])]));
    let nothing: Option<Widget> = None;
    container.swap(nothing);
    assert_eq!(container.widget, row(0, vec![]));
    let full = Container::new(Some(label("x")));
    assert_eq!(full.widget(), row(0, vec![label("x")]));
}

#[test]
fn a_swappable_component_always_shows_one_component() {
    let mut place = SwappableComponent::new(label("view"));
    assert_eq!(place.child, label("view"));
    place.swap(Container::new(Some(label("edit"))));
    assert_eq!(place.child, row(0, vec![label("edit")]));
    assert_eq!(place.widget(), column(5, vec![row(0, vec![label("edit")])]));
}

#[test]
fn the_about_page_names_the_program_and_its_license() {
    let en = Text::new(LanguageId::english());
    let mut about = About::new(&en);
    about.set_language(&Text::new(LanguageId::parse("eo").unwrap()));
    match about.widget() {
        Widget::Box { orientation, spacing, children } => {
            assert_eq!((orientation, spacing), (Orientation::Vertical, 5));
            assert_eq!(children.len(), 2);
            assert_eq!(children[0], label("FitnessTrax, version 0.1"));
            assert_eq!(
                children[1],
                column(
                    5,
                    vec![
                        Widget::TextView(en.dependencies().unwrap()),
                        Widget::TextView(en.license().unwrap()),
                    ]
                )
            );
        }
        other => panic!("{:?}", other),
    }
}

#[test]
fn records_are_shown_in_words() {
    let en = Text::new(LanguageId::english());
    let stamp = Timestamp::new(0, 0, Timezone::utc());
    let steps = StepRecord::new(stamp.clone(), 1);
    assert_eq!(steps_c(&steps, &en), Some(String::from("1 step")));
    let weight = WeightRecord::new(stamp, Kilogram::from_kilograms(20));
    assert_eq!(
        weight_record_c(&weight, &en, &UnitSystem::USA),
        Some(String::from("\u{2068}44.09\u{2069} pounds"))
    );
}

#[test]
fn dates_are_written_out() {
    assert_eq!(
        date_c(&CalendarDate::from_ymd(2019, 5, 5).unwrap()),
        Some(String::from("May  5, 2019"))
    );
    assert_eq!(
        date_c(&CalendarDate::from_ymd(2019, 12, 25).unwrap()),
        Some(String::from("December 25, 2019"))
    );
    assert_eq!(date_c(&CalendarDate::new(i32::MAX)), None);
}

#[test]
fn optional_fields_are_empty_for_no_value() {
    let seen: Arc<RwLock<Vec<Option<Meter>>>> = Arc::new(RwLock::new(Vec::new()));
    let mut entry = {
        let seen = seen.clone();
        distance_edit_c(&None, &UnitSystem::SI, move |d: Option<Meter>| {
            seen.write().unwrap().push(d)
        })
    };
    assert_eq!(entry.text, "");
    entry.set_text("1.5");
    entry.set_text("x");
    assert!(entry.warning);
    entry.set_text("");
    assert!(!entry.warning);
    assert_eq!(*seen.read().unwrap(), vec![Some(Meter::from_meters(1500)), None]);
    let miles = distance_edit_c(&Some(Meter::from_meters(20000)), &UnitSystem::USA, |_| ());
    assert_eq!(miles.text, "12.43");
    assert_eq!(distance_c(&Meter::from_meters(1500), &UnitSystem::SI), "1.50");

    let field = DistanceField { units: UnitSystem::USA };
    assert_eq!(field.render(&None), "");
    assert_eq!(field.parse(""), Ok(None));
    assert_eq!(field.parse("1"), Ok(Some(Meter::from_miles(1))));
    assert_eq!(field.parse("x"), Err(Error::ParseDistanceError));

    let seen: Arc<RwLock<Vec<Option<Second>>>> = Arc::new(RwLock::new(Vec::new()));
    let mut entry = {
        let seen = seen.clone();
        duration_edit_c(&Some(Second::from_seconds(3915)), move |d: Option<Second>| {
            seen.write().unwrap().push(d)
        })
    };
    assert_eq!(entry.text, "1:05:15");
    entry.set_text("5:15");
    entry.set_text("5:");
    assert!(entry.warning);
    entry.set_text("");
    assert_eq!(*seen.read().unwrap(), vec![Some(Second::from_seconds(315)), None]);
    assert_eq!(duration_edit_c(&None, |_| ()).text, "");
    assert_eq!(duration_c(Second::from_seconds(315)), "5:15");
    assert_eq!(DurationField.parse("5:"), Err(Error::ParseDurationError));
}

#[test]
fn times_are_shown_and_read_as_hours_and_minutes() {
    let time = ClockTime::from_hms(6, 30, 12).unwrap();
    assert_eq!(time_c(&time), "06:30");
    let seen: Arc<RwLock<Vec<ClockTime>>> = Arc::new(RwLock::new(Vec::new()));
    let mut entry = {
        let seen = seen.clone();
        time_edit_c(&time, move |t: ClockTime| seen.write().unwrap().push(t))
    };
    assert_eq!(entry.text, "06:30");
    entry.set_text("07:45");
    entry.set_text("6h30");
    assert!(entry.warning);
    assert_eq!(*seen.read().unwrap(), vec![ClockTime::from_hms(7, 45, 0).unwrap()]);
    assert_eq!(ClockCodec.parse("06:30"), Ok(ClockTime::from_hms(6, 30, 0).unwrap()));
    assert_eq!(ClockCodec.parse("6h30"), Err(Error::ParseTimeError));
}

#[test]
fn every_codec_fails_with_its_own_error() {
    assert_eq!(MassCodec { units: UnitSystem::SI }.parse("?"), Err(Error::ParseMassError));
    assert_eq!(MassCodec { units: UnitSystem::USA }.parse(""), Err(Error::ParseMassError));
    assert_eq!(
        DistanceCodec { units: UnitSystem::SI }.parse("?"),
        Err(Error::ParseDistanceError)
    );
    assert_eq!(DurationCodec.parse("?"), Err(Error::ParseDurationError));
    assert_eq!(ClockCodec.parse("?"), Err(Error::ParseTimeError));
    assert_eq!(StepsCodec.parse("?"), Err(Error::ParseStepsError));
    assert_eq!(UnitsCodec.parse("?"), Err(Error::ParseUnitsError));
}

#[test]
fn every_codec_reads_back_what_it_writes() {
    let mass = MassCodec { units: UnitSystem::USA };
    let twenty_pounds = Kilogram::from_pounds(20);
    assert_eq!(mass.render(&twenty_pounds), "20.00");
    assert_eq!(mass.parse(&mass.render(&twenty_pounds)), Ok(twenty_pounds));
    let distance = DistanceCodec { units: UnitSystem::SI };
    let marathon = Meter::from_meters(42_190);
    assert_eq!(distance.render(&marathon), "42.19");
    assert_eq!(distance.parse(&distance.render(&marathon)), Ok(marathon));
    let hour = Second::from_seconds(3600);
    assert_eq!(DurationCodec.parse(&DurationCodec.render(&hour)), Ok(hour));
    let noon = ClockTime::from_hms(12, 0, 0).unwrap();
    assert_eq!(ClockCodec.parse(&ClockCodec.render(&noon)), Ok(noon));
    assert_eq!(StepsCodec.parse(&StepsCodec.render(&10_000)), Ok(10_000));
    for units in [UnitSystem::SI, UnitSystem::USA] {
        assert_eq!(UnitsCodec.parse(&UnitsCodec.render(&units)), Ok(units));
    }
}

#[test]
fn a_steps_field_hands_on_the_record_with_the_new_count() {
    let en = Text::new(LanguageId::english());
    let stamp = Timestamp::new(1_557_000_000, 0, Timezone::utc());
    let id = UniqueId::new();
    let seen: Arc<RwLock<Vec<(UniqueId, StepRecord)>>> = Arc::new(RwLock::new(Vec::new()));
    let mut edit = {
        let seen = seen.clone();
        steps_edit_c(
            id.clone(),
            StepRecord::new(stamp.clone(), 5000),
            &en,
            move |id: UniqueId, record: StepRecord| seen.write().unwrap().push((id, record)),
        )
    };
    assert_eq!(edit.text, "5000");
    assert_eq!(edit.label, Some(String::from("Steps")));
    edit.set_text("5500");
    assert!(!edit.warning);
    edit.set_text("55oo");
    assert!(edit.warning);
    assert_eq!(*seen.read().unwrap(), vec![(id, StepRecord::new(stamp, 5500))]);
}

#[test]
fn a_weight_field_hands_on_the_record_with_the_new_weight() {
    let en = Text::new(LanguageId::english());
    let stamp = Timestamp::new(1_557_000_000, 0, Timezone::utc());
    let id = UniqueId::new();
    let seen: Arc<RwLock<Vec<(UniqueId, WeightRecord)>>> = Arc::new(RwLock::new(Vec::new()));
    let mut edit = {
        let seen = seen.clone();
        weight_record_edit_c(
            id.clone(),
            WeightRecord::new(stamp.clone(), Kilogram::from_kilograms(20)),
            &en,
            UnitSystem::USA,
            move |id: UniqueId, record: WeightRecord| seen.write().unwrap().push((id, record)),
        )
    };
    assert_eq!(edit.text, "44.09");
    assert_eq!(edit.label, Some(String::from("kilograms")));
    edit.set_text("");
    assert!(edit.warning);
    edit.set_text("45");
    assert!(!edit.warning);
    assert_eq!(
        *seen.read().unwrap(),
        vec![(id, WeightRecord::new(stamp, Kilogram::from_pounds(45)))]
    );
}

#[test]
fn a_date_selector_opens_its_calendar_and_reports_the_day_chosen() {
    let told: Arc<RwLock<Vec<CalendarDate>>> = Arc::new(RwLock::new(Vec::new()));
    let start = CalendarDate::from_ymd(2019, 5, 5).unwrap();
    let mut selector: DateSelector<_> = {
        let told = told.clone();
        date_selector_c(start, move |date: CalendarDate| told.write().unwrap().push(date))
    };
    assert_eq!(selector.label, Some(String::from("May  5, 2019")));
    assert!(selector.visible);
    assert!(!selector.calendar_visible);
    selector.button_clicked();
    assert!(selector.calendar_visible);
    // The calendar counts months from zero: this is the 25th of December.
    selector.day_selected(2019, 11, 25);
    let christmas = CalendarDate::from_ymd(2019, 12, 25).unwrap();
    assert_eq!(selector.date, christmas);
    assert_eq!(selector.label, Some(String::from("December 25, 2019")));
    selector.day_selected(2019, 1, 30);
    selector.day_selected(u32::MAX, 0, 1);
    selector.day_selected(2019, u32::MAX, 1);
    assert_eq!(selector.date, christmas);
    assert_eq!(*told.read().unwrap(), vec![christmas]);
    selector.button_clicked();
    assert!(!selector.calendar_visible);
    selector.show();
    assert!(selector.visible);
    let other = DateSelector::new(start, |_| ());
    assert_eq!(other.date, start);
}


#[test]
fn held_sets_are_shown_in_seconds() {
    let record = RepDurationRecord::new(
        Timestamp::new(0, 0, Timezone::utc()),
        fitnesstrax_core::trax::repduration::ActivityType::Planks,
        vec![
            Second::from_seconds(60),
            Second::new(45_500),
            Second::new(125),
            Second::new(1_050),
            Second::new(0),
        ],
    );
    assert_eq!(
        rep_duration_c(&record),
        row(5, vec![label("Planks"), label("60 s 45.5 s 0.125 s 1.05 s 0 s")])
    );
    let none = RepDurationRecord::new(Timestamp::new(0, 0, Timezone::utc()), fitnesstrax_core::trax::repduration::ActivityType::Yoga, vec![]);
    assert_eq!(rep_duration_c(&none), row(5, vec![label("Yoga"), label("")]));
    for ms in [0u64, 1, 10, 100, 999, 1_000, 1_001, 45_500, 60_000, 3_600_250] {
        let expected = format!("{} s", ms as f64 / 1000.0);
        let shown = RepDurationRecord::new(
            Timestamp::new(0, 0, Timezone::utc()),
            fitnesstrax_core::trax::repduration::ActivityType::MartialArts,
            vec![Second::new(ms)],
        );
        assert_eq!(rep_duration_c(&shown), row(5, vec![label("MartialArts"), label(&expected)]));
    }
}

#[test]
fn a_workout_is_shown_with_time_activity_distance_and_duration() {
    let zone = Timezone::parse("America/New_York").unwrap();
    let en = Text::new(LanguageId::english());
    let start = CalendarDate::from_ymd(2019, 5, 5).unwrap().start_in(&zone).unwrap();
    let at_half_past_six = Timestamp::new(start.seconds + 6 * 3600 + 30 * 60 + 12, 0, zone.clone());
    let record = TimeDistanceRecord::new(
        at_half_past_six.clone(),
        Activity::Running,
        Some(Meter::from_meters(5000)),
        Some(Second::from_seconds(1_530)),
        None,
    );
    assert_eq!(
        time_distance_c(&record, &zone, &en, &UnitSystem::SI),
        row(5, vec![label("06:30"), label("Running"), label("5.00"), label("25:30")])
    );
    let bare = TimeDistanceRecord::new(at_half_past_six, Activity::Rowing, None, None, None);
    assert_eq!(
        time_distance_c(&bare, &Timezone::utc(), &en, &UnitSystem::USA),
        row(5, vec![label("10:30"), label("Rowing"), label("---"), label("---")])
    );
}

#[test]
fn the_fields_of_a_workout_change_the_record_and_hand_it_on() {
    let zone = Timezone::parse("America/New_York").unwrap();
    let start = CalendarDate::from_ymd(2019, 5, 5).unwrap().start_in(&zone).unwrap();
    let stamp = Timestamp::new(start.seconds + 6 * 3600 + 30 * 60 + 12, 77, Timezone::utc());
    let record = TimeDistanceRecord::new(stamp, Activity::Cycling, None, None, None);
    let id = UniqueId::new();
    let seen: Arc<RwLock<Vec<(UniqueId, TimeDistanceRecord)>>> =
        Arc::new(RwLock::new(Vec::new()));
    let mut edit = {
        let seen = seen.clone();
        time_distance_record_edit_c(
            id.clone(),
            record.clone(),
            zone.clone(),
            UnitSystem::SI,
            move |id: UniqueId, record: TimeDistanceRecord| {
                seen.write().unwrap().push((id, record))
            },
        )
    };
    assert_eq!(edit.time_text(), "06:30");
    assert_eq!(edit.distance_text(), "");
    assert_eq!(edit.duration_text(), "");

    edit.time_changed("07:45");
    assert!(!edit.time_warning);
    let moved = Timestamp::new(start.seconds + 7 * 3600 + 45 * 60, 77, zone.clone());
    assert_eq!(edit.record.timestamp, moved);
    assert_eq!(edit.time_text(), "07:45");
    edit.time_changed("7h45");
    assert!(edit.time_warning);
    assert_eq!(edit.record.timestamp, moved);

    edit.activity_selected("Swimming");
    assert_eq!(edit.record.activity, Activity::Swimming);
    edit.activity_selected("Diving");
    assert_eq!(edit.record.activity, Activity::Swimming);

    edit.distance_changed("1.5");
    assert_eq!(edit.record.distance, Some(Meter::from_meters(1500)));
    assert_eq!(edit.distance_text(), "1.50");
    edit.distance_changed("");
    assert!(!edit.distance_warning);
    edit.distance_changed("far");
    assert!(edit.distance_warning);
    assert_eq!(edit.record.distance, Some(Meter::from_meters(1500)));

    edit.duration_changed("45:00");
    assert_eq!(edit.record.duration, Some(Second::from_seconds(2700)));
    assert_eq!(edit.duration_text(), "45:00");
    edit.duration_changed("long");
    assert!(edit.duration_warning);
    edit.duration_changed("");
    assert!(!edit.duration_warning);
    assert_eq!(edit.record.duration, Some(Second::from_seconds(2700)));

    let told = seen.read().unwrap();
    assert_eq!(told.len(), 4);
    assert!(told.iter().all(|(told_id, _)| told_id == &id));
    assert_eq!(told[0].1.timestamp, moved);
    assert_eq!(told[0].1.activity, Activity::Cycling);
    assert_eq!(told[1].1.activity, Activity::Swimming);
    assert_eq!(told[2].1.distance, Some(Meter::from_meters(1500)));
    assert_eq!(told[2].1.duration, None);
    assert_eq!(told[3].1, edit.record);
}

#[test]
fn the_menus_of_the_preferences_start_on_what_is_in_force() {
    let eo = Text::new(LanguageId::parse("eo").unwrap());
    let languages = language_menu(&eo, |_: &str| ());
    assert_eq!(languages.ids, vec!["en", "eo"]);
    assert_eq!(languages.labels, vec!["English", "Esperanto"]);
    assert_eq!(languages.active, Some(1));
    let english = Text::new(LanguageId::parse("en-GB").unwrap());
    let languages = language_menu(&english, |_: &str| ());
    assert_eq!(languages.active, Some(0));

    let new_york = Timezone::parse("America/New_York").unwrap();
    let zones = timezone_menu(&new_york, |_: &str| ());
    assert_eq!(zones.ids, vec!["America/Chicago", "America/New_York"]);
    assert_eq!(zones.labels, vec!["United States: Chicago", "United States: New York"]);
    assert_eq!(zones.active, Some(1));
    let elsewhere = timezone_menu(&Timezone::utc(), |_: &str| ());
    assert_eq!(elsewhere.active, None);

    let units = units_menu(&UnitSystem::USA, |_: &str| ());
    assert_eq!(units.ids, vec!["SI", "USA"]);
    assert_eq!(units.labels, vec!["SI (kg, km, m/s)", "USA (lbs, mi, mph)"]);
    assert_eq!(units.active, Some(1));
    let si = units_menu(&UnitSystem::SI, |_: &str| ());
    assert_eq!(si.active, Some(0));
}
