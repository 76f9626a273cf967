use fitnesstrax_core::dates::{Timestamp, Timezone};
use fitnesstrax_core::errors::Error;
use fitnesstrax_core::si::{Kilogram, Meter, Second};
use fitnesstrax_core::trax::comments::Comments;
use fitnesstrax_core::trax::repduration::RepDurationRecord;
use fitnesstrax_core::trax::setrep::SetRepRecord;
use fitnesstrax_core::trax::steps::StepRecord;
use fitnesstrax_core::strings::same_text;
use fitnesstrax_core::trax::timedistance::{activity_types, ActivityType, TimeDistanceRecord};
use fitnesstrax_core::trax::weight::WeightRecord;
use fitnesstrax_core::trax::TraxRecord;

fn at(seconds: i64) -> Timestamp {
    Timestamp::new(seconds, 0, Timezone::utc())
}

#[test]
fn the_activities_in_menu_order() {
    assert_eq!(
        activity_types(),
        vec![
            ActivityType::Cycling,
            ActivityType::Rowing,
            ActivityType::Running,
            ActivityType::Swimming,
            ActivityType::Walking,
        ]
    );
}

#[test]
fn activities_are_read_by_name() {
    for activity in activity_types() {
        assert_eq!(ActivityType::try_from(activity.name()), Ok(activity));
    }
    assert_eq!(ActivityType::try_from("Cycling"), Ok(ActivityType::Cycling));
    assert_eq!(ActivityType::Swimming.name(), "Swimming");
    for text in ["", "cycling", "Cycling ", "Jogging", "Run"] {
        assert_eq!(ActivityType::try_from(text), Err("invalid activity string"), "{:?}", text);
    }
}

#[test]
fn a_workout_is_tagged_with_its_activity() {
    let record = TimeDistanceRecord::new(
        at(1_509_218_820),
        ActivityType::Cycling,
        Some(Meter::from_meters(12200)),
        Some(Second::from_seconds(3120)),
        None,
    );
    assert_eq!(record.activity, ActivityType::Cycling);
    assert_eq!(record.distance, Some(Meter::from_meters(12200)));
    assert_eq!(record.duration, Some(Second::from_seconds(3120)));
    assert_eq!(record.timestamp(), at(1_509_218_820));
    assert_eq!(record.tags(), vec![String::from("Cycling")]);
    let running = TimeDistanceRecord::new(at(0), ActivityType::Running, None, None, None);
    assert_eq!(running.tags(), vec![String::from("Running")]);
}

#[test]
fn every_record_has_one_timestamp() {
    let records = vec![
        TraxRecord::Comments(Comments::new(at(1), String::from("rest day"))),
        TraxRecord::RepDuration(RepDurationRecord::new(
            at(2),
            fitnesstrax_core::trax::repduration::ActivityType::Planks,
            vec![Second::from_seconds(60)],
        )),
        TraxRecord::SetRep(SetRepRecord::new(
            at(3),
            fitnesstrax_core::trax::setrep::ActivityType::Pushups,
            vec![10, 10],
        )),
        TraxRecord::Steps(StepRecord::new(at(4), 10_000)),
        TraxRecord::TimeDistance(TimeDistanceRecord::new(
            at(5),
            ActivityType::Walking,
            None,
            None,
            Some(String::from("slow")),
        )),
        TraxRecord::Weight(WeightRecord::new(at(6), Kilogram::from_kilograms(70))),
        TraxRecord::weight(at(7), Kilogram::from_kilograms(71)),
    ];
    for (i, record) in records.iter().enumerate() {
        assert_eq!(record.timestamp(), &at(i as i64 + 1));
    }
    assert_eq!(records[5].clone(), records[5]);
}

#[test]
fn texts_are_compared_character_by_character() {
    assert!(same_text("", ""));
    assert!(same_text("Cycling", "Cycling"));
    assert!(!same_text("Cycling", "Cyclin"));
    assert!(!same_text("Cycling", "Cyclinf"));
    assert!(same_text("paŝoj", "paŝoj"));
    assert!(!same_text("pasoj", "paŝoj"));
}

#[test]
fn errors_say_what_went_wrong() {
    assert_eq!(Error::ParseDistanceError.message(), "Failed to parse a distance string");
    assert_eq!(Error::ParseDurationError.message(), "Failed to parse a duration string");
    assert_eq!(Error::ParseMassError.message(), "Failed to parse a mass string");
    assert_eq!(Error::ParseStepsError.message(), "Failed to parse a number of steps");
    assert_eq!(Error::ParseTimeError.message(), "Failed to parse a time");
    assert_eq!(Error::ParseUnitsError.message(), "Failed to parse a units string");
    assert_eq!(Error::SeriesNotOpen.message(), "There is no series open");
    assert_eq!(
        Error::TraxError(String::from("bad uuid")).message(),
        "Trax encountered an error: bad uuid"
    );
    assert_eq!(Error::IOError(String::from("denied")).message(), "IO Error: denied");
    assert_eq!(Error::SeriesNotOpen.description(), "There is no series open");
    assert_eq!(Error::IOError(String::from("denied")).description(), "denied");
    assert_eq!(Error::ParseTimeError.cause(), None);
    assert_eq!(Error::TraxError(String::from("bad uuid")).cause(), Some(String::from("bad uuid")));
}
