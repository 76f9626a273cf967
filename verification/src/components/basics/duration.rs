//! Durations on show and in a text field.
use crate::components::basics::text_entry::{validated_text_entry_c, ValidatedTextEntry};
use crate::formats::codec::{Codec, DurationField};
use crate::formats::duration::duration_text;
use crate::formats::Duration;
use crate::si::Second;
use vstd::prelude::*;

verus! {

/// The text that shows a duration.
pub fn duration_c(duration: Second) -> (text: String)
    ensures
        text@ == duration_text(duration.units as nat),
{
    Duration::new(duration).render()
}

/// A field to edit a duration that may be missing: an empty field stands
/// for no duration.
pub fn duration_edit_c<U: Fn(Option<Second>)>(duration: &Option<Second>, on_update: U) -> (entry:
    ValidatedTextEntry<DurationField, U>)
    ensures
        entry.text@ == DurationField.text(*duration),
        !entry.warning,
        entry.on_update == on_update,
{
    validated_text_entry_c(*duration, DurationField, on_update)
}

} // verus!
