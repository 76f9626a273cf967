//! Weights on show and in a text field.
use crate::formats::codec::{Codec, MassCodec};
use crate::i18n::{Text, UnitSystem};
use crate::i18n::text::text_of;
use crate::i18n::units::{mass_of_text, quantity_text};
use crate::si::Kilogram;
use crate::trax::weight::WeightRecord;
use emseries::UniqueId;
use vstd::prelude::*;
use vstd::string::StringExecFns;

verus! {

/// A field to edit the weight of a record, with the name of the unit that
/// stands beside it.
pub struct WeightEdit<U> {
    pub id: UniqueId,
    pub record: WeightRecord,
    pub units: UnitSystem,
    pub text: String,
    /// Set while the text is no mass.
    pub warning: bool,
    pub label: Option<String>,
    pub on_update: U,
}

/// The text that shows a weight, in the words of `text` and the units in
/// force.
pub fn weight_record_c(record: &WeightRecord, text: &Text, units: &UnitSystem) -> (r: Option<
    String,
>)
    ensures
        text_of(r) == text.phrase("mass"@, Text::mass_args(record.weight, *units)),
{
    text.mass(record.weight, units)
}

/// A field that shows the weight of `record` in the units in force and calls
/// `on_update` with the identifier and the record with the new weight
/// whenever a mass is typed.
pub fn weight_record_edit_c<U: Fn(UniqueId, WeightRecord)>(
    id: UniqueId,
    record: WeightRecord,
    text: &Text,
    units: UnitSystem,
    on_update: U,
) -> (edit: WeightEdit<U>)
    ensures
        edit.id == id,
        edit.record == record,
        edit.units == units,
        edit.text@ == quantity_text(record.weight.units as nat, units.mass_step()),
        !edit.warning,
        text_of(edit.label) == text.phrase("mass-label"@, Seq::empty()),
        edit.on_update == on_update,
{
    let shown = units.render_mass(record.weight);
    WeightEdit { id, record, units, text: shown, warning: false, label: text.mass_label(), on_update }
}

impl<U: Fn(UniqueId, WeightRecord)> WeightEdit<U> {
    /// The user has changed the text to `text`. A mass in the units in force
    /// clears the warning, and `on_update` has been called with the
    /// identifier and a record of the same time with the new weight; any
    /// other text, the empty one included, sets the warning.
    pub fn set_text(&mut self, text: &str)
        requires
            forall|id: UniqueId, record: WeightRecord|
                call_requires(old(self).on_update, (id, record)),
        ensures
            final(self).text@ == text@,
            final(self).id == old(self).id,
            final(self).record == old(self).record,
            final(self).units == old(self).units,
            final(self).label == old(self).label,
            final(self).on_update == old(self).on_update,
            match mass_of_text(text@, old(self).units.mass_step()) {
                Some(units) => !final(self).warning && call_ensures(
                    old(self).on_update,
                    (
                        old(self).id,
                        (WeightRecord { date: old(self).record.date, weight: Kilogram { units } }),
                    ),
                    (),
                ),
                None => final(self).warning,
            },
    {
        self.text = String::from_str(text);
        let codec = MassCodec { units: self.units };
        match codec.parse(text) {
            Ok(weight) => {
                self.warning = false;
                (self.on_update)(self.id.clone(), WeightRecord::new(self.record.timestamp(), weight));
            },
            Err(_) => {
                self.warning = true;
            },
        }
    }
}

} // verus!
