use fitnesstrax_core::errors::Error;
use fitnesstrax_core::i18n::units::{Kilograms, Kilometers, Miles, Pounds};
use fitnesstrax_core::i18n::UnitSystem;
use fitnesstrax_core::si::{Kilogram, Meter};

#[test]
fn it_displays_mass_in_kg() {
    let t = Kilograms::new(Kilogram::from_kilograms(20));
    assert_eq!(t.render(), "20.00");
}

#[test]
fn it_parses_kilograms() {
    let t: Kilograms = "20.00".parse().expect("successful parse");
    assert_eq!(t, Kilograms::new(Kilogram::from_kilograms(20)));
}

#[test]
fn it_displays_mass_in_lbs() {
    let t = Pounds::new(Kilogram::from_kilograms(20));
    assert_eq!(t.render(), "44.09");
}

#[test]
fn it_parses_pounds() {
    let t: Pounds = "20.00".parse().expect("successful parse");
    assert_eq!(t, Pounds::new(Kilogram::from_pounds(20)));
}

#[test]
fn it_displays_distance_in_km() {
    let t = Kilometers::new(Meter::from_meters(20000));
    assert_eq!(t.render(), "20.00");
}

#[test]
fn it_parses_kilometers() {
    let t: Kilometers = "20.00".parse().expect("successful parse");
    assert_eq!(t, Kilometers::new(Meter::from_meters(20000)));
}

#[test]
fn it_displays_distance_in_miles() {
    let t = Miles::new(Meter::from_meters(20000));
    assert_eq!(t.render(), "12.43");
}

#[test]
fn it_parses_miles() {
    let t: Miles = "20.00".parse().expect("successful parse");
    assert_eq!(t, Miles::new(Meter::from_miles(20)));
}

#[test]
fn miles_read_back_within_the_display_precision() {
    let shown = Miles::new(Meter::from_meters(20000)).render();
    assert_eq!(shown, "12.43");
    let back = Miles::try_from(&shown).expect("successful parse").extract();
    let meters = back.units as f64 / 100_000.0;
    assert!((meters - 20000.0).abs() < 0.005 * 1609.344 + 1e-9, "{}", meters);
    assert_eq!(back.units, 1243 * 1_609_344);
}

#[test]
fn unit_system_picks_the_codec() {
    let twenty_kg = Kilogram::from_kilograms(20);
    assert_eq!(UnitSystem::SI.render_mass(twenty_kg), "20.00");
    assert_eq!(UnitSystem::USA.render_mass(twenty_kg), "44.09");
    assert_eq!(UnitSystem::SI.parse_mass("20"), Ok(twenty_kg));
    assert_eq!(UnitSystem::USA.parse_mass("20"), Ok(Kilogram::from_pounds(20)));
    let twenty_km = Meter::from_meters(20000);
    assert_eq!(UnitSystem::SI.render_distance(twenty_km), "20.00");
    assert_eq!(UnitSystem::USA.render_distance(twenty_km), "12.43");
    assert_eq!(UnitSystem::SI.parse_distance("20.00"), Ok(twenty_km));
    assert_eq!(UnitSystem::USA.parse_distance("20.00"), Ok(Meter::from_miles(20)));
}

#[test]
fn quantities_reject_what_is_no_number() {
    for text in [
        "", ".", "+", "abc", "1,5", "-1", "1.2.3", " 1", "1 ", "inf", "NaN", "１２", "e5", ".e5", "1e",
        "1e-", "1e+", "1e5.0", "1e 5", "1ee5", "1e+-1", "++1", "1e30",
        "1e99999999999999999999999999999999999999999999",
    ] {
        assert_eq!(UnitSystem::SI.parse_mass(text), Err(Error::ParseMassError), "{:?}", text);
        assert_eq!(UnitSystem::USA.parse_mass(text), Err(Error::ParseMassError), "{:?}", text);
        assert_eq!(
            UnitSystem::SI.parse_distance(text),
            Err(Error::ParseDistanceError),
            "{:?}",
            text
        );
        assert_eq!(
            UnitSystem::USA.parse_distance(text),
            Err(Error::ParseDistanceError),
            "{:?}",
            text
        );
    }
    assert_eq!(Kilograms::try_from("x"), Err(Error::ParseMassError));
    assert_eq!(Pounds::try_from("x"), Err(Error::ParseMassError));
    assert_eq!(Kilometers::try_from("x"), Err(Error::ParseDistanceError));
    assert_eq!(Miles::try_from("x"), Err(Error::ParseDistanceError));
}

#[test]
fn quantities_too_large_to_hold_are_rejected() {
    assert_eq!(
        UnitSystem::SI.parse_mass("1844674407.37"),
        Ok(Kilogram::new(18_446_744_073_700_000_000))
    );
    assert_eq!(
        UnitSystem::SI.parse_mass("1844674407.3709551615"),
        Ok(Kilogram::new(u64::MAX))
    );
    assert_eq!(UnitSystem::SI.parse_mass("1844674407.3709551616"), Err(Error::ParseMassError));
    assert_eq!(UnitSystem::SI.parse_mass("1844674407.38"), Err(Error::ParseMassError));
    assert_eq!(
        UnitSystem::SI.parse_mass("184467440737095516.16"),
        Err(Error::ParseMassError)
    );
    assert_eq!(
        UnitSystem::SI.parse_mass("99999999999999999999999999999999999999999999"),
        Err(Error::ParseMassError)
    );
    // More pounds than 64 bits count at ten decimals still make a mass that can be held.
    assert_eq!(
        UnitSystem::USA.parse_mass("4000000000"),
        Ok(Kilogram::new(4_000_000_000 * 4_535_923_700))
    );
    assert_eq!(UnitSystem::USA.parse_mass("4066817786.9"), Err(Error::ParseMassError));
}

#[test]
fn quantities_are_read_in_full_and_shown_to_the_nearest_hundredth() {
    let kg = |units: u64| Ok(Kilograms::new(Kilogram::new(units)));
    assert_eq!(Kilograms::try_from("1.234"), kg(12_340_000_000));
    assert_eq!(Kilograms::try_from("1.235"), kg(12_350_000_000));
    assert_eq!(Kilograms::try_from("1.2450001"), kg(12_450_001_000));
    assert_eq!(Kilograms::try_from(".5"), kg(5_000_000_000));
    assert_eq!(Kilograms::try_from("5."), kg(50_000_000_000));
    assert_eq!(Kilograms::try_from("007"), kg(70_000_000_000));
    assert_eq!(Kilograms::try_from("+7"), kg(70_000_000_000));
    // Beyond the tenth decimal a mass is read to the nearest unit, a tie to the even one.
    assert_eq!(Kilograms::try_from("1.00000000005"), kg(10_000_000_000));
    assert_eq!(Kilograms::try_from("1.00000000015"), kg(10_000_000_002));
    assert_eq!(Kilograms::try_from("1.00000000025"), kg(10_000_000_002));
    assert_eq!(Kilograms::try_from("0.00000000004"), kg(0));
    assert_eq!(Pounds::try_from("1.234"), Ok(Pounds::new(Kilogram::new(5_597_329_846))));
    assert_eq!(Pounds::try_from("100.005"), Ok(Pounds::new(Kilogram::new(453_615_049_618))));
    assert_eq!(Pounds::try_from("0.01"), Ok(Pounds::new(Kilogram::new(45_359_237))));
    assert_eq!(Kilometers::try_from("1.23456789"), Ok(Kilometers::new(Meter::new(123_456_789))));
    assert_eq!(Kilometers::try_from("1.234567885"), Ok(Kilometers::new(Meter::new(123_456_788))));
    assert_eq!(Miles::try_from("26.21875"), Ok(Miles::new(Meter::new(4_219_498_800))));
    assert_eq!(Miles::try_from("0.00000001"), Ok(Miles::new(Meter::new(2))));
    // An exponent shifts the point.
    assert_eq!(Kilograms::try_from("1e3"), kg(10_000_000_000_000));
    assert_eq!(Kilograms::try_from("+1e1"), kg(100_000_000_000));
    assert_eq!(Kilograms::try_from("2E2"), kg(2_000_000_000_000));
    assert_eq!(Kilograms::try_from("1e+2"), kg(1_000_000_000_000));
    assert_eq!(Kilograms::try_from("1.5e-3"), kg(15_000_000));
    assert_eq!(Kilograms::try_from(".5e1"), kg(50_000_000_000));
    assert_eq!(Kilograms::try_from("5.e1"), kg(500_000_000_000));
    assert_eq!(Kilograms::try_from("12345e-2"), kg(1_234_500_000_000));
    assert_eq!(Kilograms::try_from("1e-10"), kg(1));
    assert_eq!(Kilograms::try_from("1e-11"), kg(0));
    assert_eq!(Kilograms::try_from("5e-11"), kg(0));
    assert_eq!(Kilograms::try_from("15e-11"), kg(2));
    assert_eq!(Kilograms::try_from("25e-11"), kg(2));
    assert_eq!(Kilograms::try_from("1e-99999999999999999999999999999999999999999999"), kg(0));
    assert_eq!(Kilograms::try_from("0e99999999999999999999999999999999999999999999"), kg(0));
    assert_eq!(Kilograms::try_from("0.000e1180591620717411303424"), kg(0));
    assert_eq!(Kilograms::try_from("1e9"), kg(10_000_000_000_000_000_000));
    assert_eq!(Miles::try_from("1e1"), Ok(Miles::new(Meter::from_miles(10))));
    // What is shown has two decimals, whatever was read.
    assert_eq!(Kilograms::try_from("1.234").unwrap().render(), "1.23");
    assert_eq!(Kilograms::try_from("1.235").unwrap().render(), "1.24");
    assert_eq!(Kilograms::try_from("1.245").unwrap().render(), "1.24");
    assert_eq!(Kilograms::try_from("1.2450001").unwrap().render(), "1.25");
    assert_eq!(Kilograms::new(Kilogram::new(49_999_999)).render(), "0.00");
    assert_eq!(Kilograms::new(Kilogram::new(50_000_000)).render(), "0.00");
    assert_eq!(Kilograms::new(Kilogram::new(50_000_001)).render(), "0.01");
    assert_eq!(Kilograms::new(Kilogram::new(150_000_000)).render(), "0.02");
    assert_eq!(Kilograms::new(Kilogram::new(250_000_000)).render(), "0.02");
    assert_eq!(Kilograms::new(Kilogram::new(u64::MAX)).render(), "1844674407.37");
    assert_eq!(Pounds::new(Kilogram::new(u64::MAX)).render(), "4066810928.44");
}

#[test]
fn quantities_at_display_precision_round_trip() {
    for h in [0u64, 1, 5, 99, 100, 101, 1243, 4409, 123_456_789] {
        let kg = Kilograms::new(Kilogram::new(h * 100_000_000));
        assert_eq!(Kilograms::try_from(&kg.render()), Ok(kg));
        let lb = Pounds::new(Kilogram::new(h * 45_359_237));
        assert_eq!(Pounds::try_from(&lb.render()), Ok(lb));
        let km = Kilometers::new(Meter::new(h * 1_000_000));
        assert_eq!(Kilometers::try_from(&km.render()), Ok(km));
        let mi = Miles::new(Meter::new(h * 1_609_344));
        assert_eq!(Miles::try_from(&mi.render()), Ok(mi));
    }
}

#[test]
fn unit_system_names() {
    assert_eq!(UnitSystem::SI.name(), "SI");
    assert_eq!(UnitSystem::USA.name(), "USA");
    assert_eq!(UnitSystem::try_from("SI"), Ok(UnitSystem::SI));
    assert_eq!(UnitSystem::try_from("USA"), Ok(UnitSystem::USA));
    for text in ["", "si", "usa", "SI ", "US", "USAA", "metric"] {
        assert_eq!(UnitSystem::try_from(text), Err(Error::ParseUnitsError), "{:?}", text);
    }
}
