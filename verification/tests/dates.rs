use chrono::{Datelike, NaiveDate, TimeZone};
use fitnesstrax_core::dates::{CalendarDate, Timestamp, Timezone};

#[test]
fn dates_are_counted_as_the_calendar_counts_them() {
    assert_eq!(CalendarDate::from_ymd(1, 1, 1), Some(CalendarDate::new(1)));
    assert_eq!(CalendarDate::from_ymd(1970, 1, 1), Some(CalendarDate::new(719_163)));
    let date = CalendarDate::from_ymd(2019, 5, 1).unwrap();
    assert_eq!(date.days, NaiveDate::from_ymd_opt(2019, 5, 1).unwrap().num_days_from_ce());
    assert_eq!(CalendarDate::from_ymd(2019, 2, 29), None);
    assert_eq!(CalendarDate::from_ymd(2020, 2, 29).map(|d| d.days), Some(date.days + 304));
    assert_eq!(CalendarDate::from_ymd(2019, 13, 1), None);
    assert_eq!(CalendarDate::from_ymd(2019, 0, 1), None);
}

#[test]
fn the_day_after_is_the_number_after() {
    let april_30 = CalendarDate::from_ymd(2019, 4, 30).unwrap();
    assert_eq!(april_30.plus_days(1), CalendarDate::from_ymd(2019, 5, 1));
    assert_eq!(april_30.plus_days(-30), CalendarDate::from_ymd(2019, 3, 31));
    assert_eq!(CalendarDate::new(i32::MAX).plus_days(1), None);
    assert_eq!(CalendarDate::new(i32::MIN).plus_days(-1), None);
    assert_eq!(CalendarDate::new(i32::MAX).plus_days(0), Some(CalendarDate::new(i32::MAX)));
}

#[test]
fn zones_are_known_by_name() {
    assert!(Timezone::parse("America/New_York").is_some());
    assert!(Timezone::parse("America/Chicago").is_some());
    assert!(Timezone::parse("Etc/UTC").is_some());
    assert_eq!(Timezone::parse("America/New_York").unwrap().name(), "America/New_York");
    assert_eq!(Timezone::utc().name(), "Etc/UTC");
    assert_eq!(Timezone::parse("Mars/Olympus_Mons"), None);
    assert_eq!(Timezone::parse(""), None);
    assert_eq!(Timezone::parse("america/new_york"), None);
}

#[test]
fn a_day_begins_at_local_midnight() {
    let zone = Timezone::parse("America/New_York").unwrap();
    let date = CalendarDate::from_ymd(2019, 5, 5).unwrap();
    let start = date.start_in(&zone).unwrap();
    let expected = chrono_tz::America::New_York
        .with_ymd_and_hms(2019, 5, 5, 0, 0, 0)
        .unwrap()
        .timestamp();
    assert_eq!(start.seconds, expected);
    assert_eq!(start.nanos, 0);
    assert_eq!(start.zone, zone);
    assert_eq!(start.date_in(&zone), Some(date));
    let just_before = Timestamp::new(start.seconds - 1, 999_999_999, zone.clone());
    assert_eq!(just_before.date_in(&zone), date.plus_days(-1));
    assert_eq!(CalendarDate::new(i32::MAX).start_in(&zone), None);
}

#[test]
fn an_instant_beyond_the_calendar_has_no_date() {
    let zone = Timezone::utc();
    assert_eq!(Timestamp::new(i64::MAX, 0, zone.clone()).date_in(&zone), None);
    assert_eq!(
        Timestamp::new(0, 0, zone.clone()).date_in(&zone),
        CalendarDate::from_ymd(1970, 1, 1)
    );
}

#[test]
fn the_clock_of_a_zone_and_a_move_within_the_day() {
    let zone = Timezone::parse("America/New_York").unwrap();
    let date = CalendarDate::from_ymd(2019, 5, 5).unwrap();
    let start = date.start_in(&zone).unwrap();
    let stamp = Timestamp::new(start.seconds + 3 * 3600 + 4 * 60 + 5, 9, Timezone::utc());
    assert_eq!(stamp.clock_in(&zone), Some((3, 4, 5)));
    assert_eq!(stamp.clock_in(&Timezone::utc()), Some((7, 4, 5)));
    let moved = stamp.at_clock(&zone, 23, 59, 58).unwrap();
    assert_eq!(moved.seconds, start.seconds + 86_400 - 2);
    assert_eq!(moved.nanos, 9);
    assert_eq!(moved.zone, zone);
    assert_eq!(moved.date_in(&zone), Some(date));
    assert_eq!(stamp.at_clock(&zone, 24, 0, 0), None);
    // On 2019-03-10 the clocks of New York skipped from two to three.
    let skipped = CalendarDate::from_ymd(2019, 3, 10).unwrap().start_in(&zone).unwrap();
    assert_eq!(skipped.at_clock(&zone, 2, 30, 0), None);
    assert_eq!(Timestamp::new(i64::MAX, 0, zone.clone()).clock_in(&zone), None);
}

#[test]
fn dates_are_written_out_in_full() {
    assert_eq!(
        CalendarDate::from_ymd(2019, 5, 5).unwrap().long_text(),
        Some(String::from("May  5, 2019"))
    );
    assert_eq!(CalendarDate::new(i32::MIN).long_text(), None);
}

#[test]
fn an_instant_whose_local_date_leaves_the_calendar_has_no_date_and_no_clock() {
    // The last second of the calendar in UTC is already the next day in Tokyo.
    let tokyo = Timezone::parse("Asia/Tokyo").unwrap();
    let last = Timestamp::new(8_210_266_876_799, 0, Timezone::utc());
    assert!(last.date_in(&Timezone::utc()).is_some());
    assert_eq!(last.clock_in(&Timezone::utc()), Some((23, 59, 59)));
    assert_eq!(last.date_in(&tokyo), None);
    assert_eq!(last.clock_in(&tokyo), None);
    // The first second of the calendar in UTC is still the day before in New York.
    let new_york = Timezone::parse("America/New_York").unwrap();
    let first = Timestamp::new(-8_334_601_228_800, 0, Timezone::utc());
    assert!(first.date_in(&Timezone::utc()).is_some());
    assert_eq!(first.clock_in(&Timezone::utc()), Some((0, 0, 0)));
    assert_eq!(first.date_in(&new_york), None);
    assert_eq!(first.clock_in(&new_york), None);
    assert!(first.date_in(&tokyo).is_some());
    assert_eq!(Timestamp::new(8_210_266_876_800, 0, Timezone::utc()).date_in(&Timezone::utc()), None);
    assert_eq!(
        Timestamp::new(-8_334_601_228_801, 0, Timezone::utc()).date_in(&Timezone::utc()),
        None
    );
    assert_eq!(Timestamp::new(i64::MIN, 0, Timezone::utc()).clock_in(&new_york), None);
    // Moving within such a day goes by the local day all the same.
    assert_eq!(
        last.at_clock(&tokyo, 1, 0, 0).map(|t| t.seconds),
        Some(8_210_266_848_000)
    );
    assert_eq!(last.at_clock(&tokyo, 9, 0, 0), None);
    assert_eq!(first.at_clock(&new_york, 0, 0, 0), None);
    assert_eq!(last.at_clock(&Timezone::utc(), 0, 0, 0).map(|t| t.seconds), Some(last.seconds - 86_399));
}

#[test]
fn the_first_and_last_days_of_the_calendar_begin_where_their_midnight_is_an_instant() {
    let tokyo = Timezone::parse("Asia/Tokyo").unwrap();
    let new_york = Timezone::parse("America/New_York").unwrap();
    let first = CalendarDate::from_ymd(-262_143, 1, 1).unwrap();
    let last = CalendarDate::from_ymd(262_142, 12, 31).unwrap();
    assert_eq!(CalendarDate::from_ymd(-262_144, 12, 31), None);
    assert_eq!(CalendarDate::from_ymd(262_143, 1, 1), None);
    assert_eq!(first.start_in(&Timezone::utc()).map(|t| t.seconds), Some(-8_334_601_228_800));
    // Midnight in Tokyo comes before midnight in UTC: before the calendar begins.
    assert_eq!(first.start_in(&tokyo), None);
    assert!(first.start_in(&new_york).is_some());
    assert_eq!(
        last.start_in(&Timezone::utc()).map(|t| t.seconds),
        Some(8_210_266_876_799 - 86_399)
    );
    assert!(last.start_in(&tokyo).is_some());
    assert!(last.start_in(&new_york).is_some());
    assert_eq!(first.long_text(), Some(String::from("January  1, -262143")));
    assert_eq!(last.long_text(), Some(String::from("December 31, +262142")));
    assert_eq!(first.plus_days(-1).unwrap().start_in(&new_york), None);
    assert_eq!(last.plus_days(1).unwrap().start_in(&tokyo), None);
}
