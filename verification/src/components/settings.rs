//! The menus of the preferences page.
use crate::components::basics::dropmenu::{dropmenu_c, first_match, Menu, MenuOptions};
use crate::dates::Timezone;
use crate::i18n::{Text, UnitSystem};
use vstd::prelude::*;

verus! {

/// Whether `menu` offers exactly the two options given, each by its
/// identifier and by what the menu shows for it.
pub open spec fn offers<F>(
    menu: Menu<F>,
    first: (Seq<char>, Seq<char>),
    second: (Seq<char>, Seq<char>),
) -> bool {
    &&& menu.ids@.len() == 2
    &&& menu.labels@.len() == 2
    &&& menu.ids@[0]@ == first.0
    &&& menu.labels@[0]@ == first.1
    &&& menu.ids@[1]@ == second.0
    &&& menu.labels@[1]@ == second.1
}

/// The menu of languages: English and Esperanto, with the language of the
/// words in use chosen.
pub fn language_menu<F: Fn(&str)>(text: &Text, on_changed: F) -> (menu: Menu<F>)
    ensures
        offers(menu, ("en"@, "English"@), ("eo"@, "Esperanto"@)),
        first_match(menu.ids@, text.language_of().language_text(), menu.active),
        menu.on_changed == on_changed,
{
    let mut options: Vec<(&str, &str)> = Vec::new();
    options.push(("en", "English"));
    options.push(("eo", "Esperanto"));
    dropmenu_c(MenuOptions(options), text.language_id().get_language(), on_changed)
}

/// The menu of time zones: Chicago and New York, with the zone in force
/// chosen if it is one of the two.
pub fn timezone_menu<F: Fn(&str)>(timezone: &Timezone, on_changed: F) -> (menu: Menu<F>)
    ensures
        offers(
            menu,
            ("America/Chicago"@, "United States: Chicago"@),
            ("America/New_York"@, "United States: New York"@),
        ),
        first_match(menu.ids@, timezone@, menu.active),
        menu.on_changed == on_changed,
{
    let mut options: Vec<(&str, &str)> = Vec::new();
    options.push(("America/Chicago", "United States: Chicago"));
    options.push(("America/New_York", "United States: New York"));
    dropmenu_c(MenuOptions(options), timezone.name(), on_changed)
}

/// The menu of unit systems: SI and USA, with the system in force chosen.
pub fn units_menu<F: Fn(&str)>(units: &UnitSystem, on_changed: F) -> (menu: Menu<F>)
    ensures
        offers(menu, ("SI"@, "SI (kg, km, m/s)"@), ("USA"@, "USA (lbs, mi, mph)"@)),
        first_match(menu.ids@, units.name_text(), menu.active),
        menu.on_changed == on_changed,
{
    let mut options: Vec<(&str, &str)> = Vec::new();
    options.push(("SI", "SI (kg, km, m/s)"));
    options.push(("USA", "USA (lbs, mi, mph)"));
    let current = units.name();
    dropmenu_c(MenuOptions(options), current.as_str(), on_changed)
}

} // verus!
