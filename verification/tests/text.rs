use fitnesstrax_core::config::LanguageId;
use fitnesstrax_core::i18n::{Text, UnitSystem};
use fitnesstrax_core::si::Kilogram;
use fitnesstrax_core::trax::timedistance::ActivityType;

fn words(tag: &str) -> Text {
    Text::new(LanguageId::parse(tag).unwrap())
}

fn some(text: &str) -> Option<String> {
    Some(String::from(text))
}

#[test]
fn translations_work() {
    let en = words("en-US");
    assert_eq!(en.preferences(), some("Preferences"));

    let eo = words("eo");
    assert_eq!(eo.preferences(), some("Agdoroj"));
    assert_eq!(eo.history(), some("Historio"));
}

#[test]
fn what_esperanto_lacks_is_said_in_english() {
    let eo = words("eo");
    assert_eq!(eo.activity(), some("Activity"));
    assert_eq!(eo.walking(), some("Promenadi"));
    assert_eq!(eo.name_with_version(), some("FitnessTrax, version 0.1"));
    assert_eq!(eo.language_id().get_language(), "eo");
}

#[test]
fn every_label_has_words() {
    let en = words("en");
    assert_eq!(en.about(), some("About"));
    assert_eq!(en.activity(), some("Activity"));
    assert_eq!(en.add_time_distance_workout(), some("Add Time/Distance Workout"));
    assert_eq!(en.cancel(), some("Cancel"));
    assert_eq!(en.cycling(), some("Cycling"));
    assert_eq!(en.database_path(), some("Database Path"));
    assert_eq!(en.edit(), some("Edit"));
    assert_eq!(en.history(), some("History"));
    assert_eq!(en.language(), some("Language"));
    assert_eq!(en.mass_label(), some("kilograms"));
    assert_eq!(en.rowing(), some("Rowing"));
    assert_eq!(en.running(), some("Running"));
    assert_eq!(en.save(), some("Save"));
    assert_eq!(en.steps_label(), some("Steps"));
    assert_eq!(en.swimming(), some("Swimming"));
    assert_eq!(en.timezone(), some("Timezone"));
    assert_eq!(en.units(), some("Units"));
    assert_eq!(en.walking(), some("Walking"));
    assert!(en.dependencies().unwrap().starts_with("Dependencies\n"));
    assert!(en.license().unwrap().starts_with("Copyright"));
    assert_eq!(en.tr("no-such-message", &vec![]), None);
    assert_eq!(en.plain("save"), some("Save"));
}

#[test]
fn activities_have_names() {
    let eo = words("eo");
    assert_eq!(eo.time_distance_activity(&ActivityType::Cycling), some("Biciklado"));
    assert_eq!(eo.time_distance_activity(&ActivityType::Rowing), some("Remado"));
    assert_eq!(eo.time_distance_activity(&ActivityType::Running), some("Kurado"));
    assert_eq!(eo.time_distance_activity(&ActivityType::Swimming), some("Naĝado"));
    assert_eq!(eo.time_distance_activity(&ActivityType::Walking), some("Promenadi"));
}

#[test]
fn a_step_count_is_in_the_singular_for_one_step() {
    let en = words("en");
    assert_eq!(en.step_count(1), some("1 step"));
    assert_eq!(en.step_count(0), some("\u{2068}0\u{2069} steps"));
    assert_eq!(en.step_count(10_342), some("\u{2068}10342\u{2069} steps"));
    let eo = words("eo");
    assert_eq!(eo.step_count(1), some("1 paŝo"));
    assert_eq!(eo.step_count(2), some("\u{2068}2\u{2069} paŝoj"));
}

#[test]
fn a_mass_is_said_in_the_units_in_force() {
    let en = words("en");
    let twenty = Kilogram::from_kilograms(20);
    assert_eq!(en.mass(twenty, &UnitSystem::SI), some("\u{2068}20.00\u{2069} kilograms"));
    assert_eq!(en.mass(twenty, &UnitSystem::USA), some("\u{2068}44.09\u{2069} pounds"));
    let eo = words("eo");
    assert_eq!(eo.mass(twenty, &UnitSystem::SI), some("\u{2068}20.00\u{2069} kilogramoj"));
    assert_eq!(eo.mass(twenty, &UnitSystem::USA), some("\u{2068}44.09\u{2069} funtoj"));
    assert_eq!(
        en.tr(
            "mass",
            &vec![
                (String::from("value"), String::from("1.50")),
                (String::from("units"), String::from("USA")),
            ]
        ),
        some("\u{2068}1.50\u{2069} pounds")
    );
}
