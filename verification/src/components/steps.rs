//! Step counts on show and in a text field.
use crate::formats::codec::{Codec, StepsCodec};
use crate::formats::numerals::nat_digits;
use crate::formats::steps::steps_of_text;
use crate::i18n::text::text_of;
use crate::i18n::Text;
use crate::trax::steps::StepRecord;
use emseries::UniqueId;
use vstd::prelude::*;
use vstd::string::StringExecFns;

verus! {

/// `clone` of `emseries::UniqueId`, which the type derives. Trusted: the copy
/// is the identifier that was copied.
pub assume_specification[ <UniqueId as Clone>::clone ](id: &UniqueId) -> (copy: UniqueId)
    ensures
        copy == *id,
;

/// A field to edit the step count of a record, with the label that stands
/// beside it.
pub struct StepsEdit<U> {
    pub id: UniqueId,
    pub record: StepRecord,
    pub text: String,
    /// Set while the text is no step count.
    pub warning: bool,
    pub label: Option<String>,
    pub on_update: U,
}

/// The text that shows a step count, in the words of `text`.
pub fn steps_c(record: &StepRecord, text: &Text) -> (r: Option<String>)
    ensures
        text_of(r) == text.phrase("step-count"@, Text::count_args(record.steps)),
{
    text.step_count(record.steps)
}

/// A field that shows the step count of `record` and calls `on_update` with
/// the identifier and the record with the new count whenever a step count
/// is typed.
pub fn steps_edit_c<U: Fn(UniqueId, StepRecord)>(
    id: UniqueId,
    record: StepRecord,
    text: &Text,
    on_update: U,
) -> (edit: StepsEdit<U>)
    ensures
        edit.id == id,
        edit.record == record,
        edit.text@ == nat_digits(record.steps as nat),
        !edit.warning,
        text_of(edit.label) == text.phrase("steps"@, Seq::empty()),
        edit.on_update == on_update,
{
    let shown = StepsCodec.render(&record.steps);
    StepsEdit { id, record, text: shown, warning: false, label: text.steps_label(), on_update }
}

impl<U: Fn(UniqueId, StepRecord)> StepsEdit<U> {
    /// The user has changed the text to `text`. A step count clears the
    /// warning, and `on_update` has been called with the identifier and a
    /// record of the same time with the new count; any other text sets the
    /// warning.
    pub fn set_text(&mut self, text: &str)
        requires
            forall|id: UniqueId, record: StepRecord|
                call_requires(old(self).on_update, (id, record)),
        ensures
            final(self).text@ == text@,
            final(self).id == old(self).id,
            final(self).record == old(self).record,
            final(self).label == old(self).label,
            final(self).on_update == old(self).on_update,
            match steps_of_text(text@) {
                Some(steps) => !final(self).warning && call_ensures(
                    old(self).on_update,
                    (old(self).id, (StepRecord { date: old(self).record.date, steps })),
                    (),
                ),
                None => final(self).warning,
            },
    {
        self.text = String::from_str(text);
        match StepsCodec.parse(text) {
            Ok(steps) => {
                self.warning = false;
                (self.on_update)(self.id.clone(), StepRecord::new(self.record.timestamp(), steps));
            },
            Err(_) => {
                self.warning = true;
            },
        }
    }
}

} // verus!
