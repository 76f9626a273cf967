use fitnesstrax_core::errors::Error;
use fitnesstrax_core::formats::{ClockTime, HoursMinutes};

#[test]
fn hours_minutes_it_displays_hours_and_minutes() {
    let t = HoursMinutes::new(ClockTime::from_hms(20, 15, 0).unwrap());
    assert_eq!(t.render(), "20:15");
}

#[test]
fn it_parses_hours_and_minutes_with_try_from() {
    let t = HoursMinutes::try_from("20:15").expect("successful parse");
    assert_eq!(t, HoursMinutes::new(ClockTime::from_hms(20, 15, 0).unwrap()));
}

#[test]
fn it_parses_hours_and_minutes_with_from_str() {
    let t = "20:15".parse::<HoursMinutes<ClockTime>>().unwrap();
    assert_eq!(t, HoursMinutes::new(ClockTime::from_hms(20, 15, 0).unwrap()));
}

#[test]
fn formats_it_displays_hours_and_minutes() {
    let t = HoursMinutes::new(ClockTime::from_hms(20, 15, 0).unwrap());
    assert_eq!(t.render(), "20:15");
    assert_eq!(t.unwrap().hour(), 20);
    assert_eq!(t.unwrap().minute(), 15);
}

#[test]
fn it_parses_hours_and_minutes() {
    let t = HoursMinutes::try_from("20:15").unwrap();
    assert_eq!(t, HoursMinutes::new(ClockTime::from_hms(20, 15, 0).unwrap()));
}

#[test]
fn clock_times_are_zero_padded_and_drop_seconds() {
    let t = HoursMinutes::new(ClockTime::from_hms(7, 5, 42).unwrap());
    assert_eq!(t.render(), "07:05");
    assert_eq!(HoursMinutes::new(ClockTime::from_hms(0, 0, 0).unwrap()).render(), "00:00");
    assert_eq!(HoursMinutes::new(ClockTime::from_hms(23, 59, 59).unwrap()).render(), "23:59");
}

#[test]
fn clock_times_out_of_range_do_not_exist() {
    assert_eq!(ClockTime::from_hms(24, 0, 0), None);
    assert_eq!(ClockTime::from_hms(0, 60, 0), None);
    assert_eq!(ClockTime::from_hms(0, 0, 60), None);
    let t = ClockTime::from_hms(23, 59, 58).unwrap();
    assert_eq!((t.hour(), t.minute(), t.second()), (23, 59, 58));
}

#[test]
fn clock_rejects_what_is_no_time() {
    for text in ["", "20", "20:", ":15", "24:00", "12:60", "ab:cd", "20:15:00", "20-15", "20:15 "] {
        assert_eq!(HoursMinutes::try_from(text), Err(Error::ParseTimeError), "{:?}", text);
    }
}

#[test]
fn every_minute_of_the_day_round_trips() {
    for hour in 0..24 {
        for minute in 0..60 {
            let t = HoursMinutes::new(ClockTime::from_hms(hour, minute, 0).unwrap());
            let text = t.render();
            assert_eq!(text.len(), 5);
            assert_eq!(HoursMinutes::try_from(&text), Ok(t));
        }
    }
}
