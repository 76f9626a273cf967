use fitnesstrax_core::errors::Error;
use fitnesstrax_core::formats::Duration;
use fitnesstrax_core::si::Second;

#[test]
fn it_displays_s() {
    let t = Duration::new(Second::from_seconds(15));
    assert_eq!(t.render(), "15");
}

#[test]
fn it_displays_ms() {
    let t = Duration::new(Second::from_seconds(315));
    assert_eq!(t.render(), "5:15");
}

#[test]
fn it_displays_hms() {
    let t = Duration::new(Second::from_seconds(3915));
    assert_eq!(t.render(), "1:05:15");
}

#[test]
fn it_parses_s_with_try_from() {
    let t = Duration::try_from("15").expect("successful parse");
    assert_eq!(t, Duration::new(Second::from_seconds(15)));
}

#[test]
fn it_parses_ms_with_try_from() {
    let t = Duration::try_from("5:15").expect("successful parse");
    assert_eq!(t, Duration::new(Second::from_seconds(315)));
}

#[test]
fn it_parses_hms_with_try_from() {
    let t = Duration::try_from("1:05:15").expect("successful parse");
    assert_eq!(t, Duration::new(Second::from_seconds(3915)));
}

#[test]
fn it_parses_hms_with_from_str() {
    let t = "1:05:15".parse::<Duration>().expect("successful parse");
    assert_eq!(t, Duration::new(Second::from_seconds(3915)));
}

#[test]
fn duration_drops_the_fraction_of_a_second_when_shown() {
    assert_eq!(Duration::new(Second::new(15_999)).render(), "15");
    assert_eq!(Duration::new(Second::new(0)).render(), "0");
    assert_eq!(Duration::new(Second::new(59_999)).render(), "59");
    assert_eq!(Duration::new(Second::new(60_000)).render(), "1:00");
    assert_eq!(Duration::new(Second::new(3_599_000)).render(), "59:59");
    assert_eq!(Duration::new(Second::new(3_600_000)).render(), "1:00:00");
    assert_eq!(Duration::new(Second::from_seconds(360_000)).render(), "100:00:00");
}

#[test]
fn duration_fields_may_hold_fractions() {
    assert_eq!(Duration::try_from("1.5"), Ok(Duration::new(Second::new(1_500))));
    assert_eq!(Duration::try_from("1.5:30"), Ok(Duration::new(Second::new(120_000))));
    assert_eq!(Duration::try_from("0.5:0:0"), Ok(Duration::new(Second::new(1_800_000))));
    assert_eq!(Duration::try_from("0.0004"), Ok(Duration::new(Second::new(0))));
    assert_eq!(Duration::try_from("0.0005"), Ok(Duration::new(Second::new(0))));
    assert_eq!(Duration::try_from("0.0015"), Ok(Duration::new(Second::new(2))));
    assert_eq!(Duration::try_from("0.00050001"), Ok(Duration::new(Second::new(1))));
    assert_eq!(Duration::try_from("+7"), Ok(Duration::new(Second::new(7_000))));
    assert_eq!(Duration::try_from("90"), Ok(Duration::new(Second::new(90_000))));
    assert_eq!(Duration::try_from("1:90"), Ok(Duration::new(Second::new(150_000))));
    assert_eq!(Duration::try_from("1e3"), Ok(Duration::new(Second::new(1_000_000))));
    assert_eq!(Duration::try_from("1:1E1"), Ok(Duration::new(Second::new(70_000))));
    assert_eq!(Duration::try_from("25e-1:0"), Ok(Duration::new(Second::new(150_000))));
}

#[test]
fn duration_rejects_what_is_no_duration() {
    for text in [
        "", ":", "1:", ":1", "1:2:3:4", "abc", "1:xx", "-5", "1 : 2", " 15", ".", "e3", "1e", "1e+",
        "inf", "nan",
    ] {
        assert_eq!(Duration::try_from(text), Err(Error::ParseDurationError), "{:?}", text);
    }
    assert_eq!(
        Duration::try_from("99999999999999999999"),
        Err(Error::ParseDurationError)
    );
    assert_eq!(
        Duration::try_from("18446744073709551:0:0"),
        Err(Error::ParseDurationError)
    );
}

#[test]
fn duration_of_whole_seconds_round_trips() {
    for n in [0u32, 1, 9, 10, 59, 60, 61, 599, 600, 3599, 3600, 3661, 86_399, 86_400, 4_000_000] {
        let d = Duration::new(Second::from_seconds(n));
        assert_eq!(Duration::try_from(&d.render()), Ok(d));
    }
}
