//! Distances on show and in a text field.
use crate::components::basics::text_entry::{validated_text_entry_c, ValidatedTextEntry};
use crate::formats::codec::{Codec, DistanceField};
use crate::i18n::units::quantity_text;
use crate::i18n::UnitSystem;
use crate::si::Meter;
use vstd::prelude::*;

verus! {

/// The text that shows a distance in the units in force.
pub fn distance_c(distance: &Meter, units: &UnitSystem) -> (text: String)
    ensures
        text@ == quantity_text(distance.units as nat, units.distance_step()),
{
    units.render_distance(*distance)
}

/// A field to edit a distance that may be missing, in the units in force:
/// an empty field stands for no distance.
pub fn distance_edit_c<U: Fn(Option<Meter>)>(
    distance: &Option<Meter>,
    units: &UnitSystem,
    on_update: U,
) -> (entry: ValidatedTextEntry<DistanceField, U>)
    ensures
        entry.codec.units == *units,
        entry.text@ == entry.codec.text(*distance),
        !entry.warning,
        entry.on_update == on_update,
{
    validated_text_entry_c(*distance, DistanceField { units: *units }, on_update)
}

} // verus!
