//! Text fields: a plain one, and one that checks what is typed.
use crate::formats::Codec;
use vstd::prelude::*;
use vstd::string::StringExecFns;

verus! {

/// A text field that reports every change of its text.
pub struct TextEntry<F> {
    pub text: String,
    pub on_changed: F,
}

/// A text field for the values of a codec: it shows a value as the codec
/// writes it, reads what is typed, hands on what reads well and marks what
/// does not.
pub struct ValidatedTextEntry<C, U> {
    pub text: String,
    /// Set while the text does not read as a value.
    pub warning: bool,
    pub codec: C,
    pub on_update: U,
}

/// A text field that shows `current` and calls `on_changed` with the new
/// text whenever the text changes.
pub fn text_entry_c<F: Fn(&str)>(current: &str, on_changed: F) -> (entry: TextEntry<F>)
    ensures
        entry.text@ == current@,
        entry.on_changed == on_changed,
{
    TextEntry { text: String::from_str(current), on_changed }
}

impl<F: Fn(&str)> TextEntry<F> {
    /// The user, or the program, has changed the text to `text`: the field
    /// holds it and the callback has been called with it.
    pub fn set_text(&mut self, text: &str)
        requires
            call_requires(old(self).on_changed, (text,)),
        ensures
            final(self).text@ == text@,
            final(self).on_changed == old(self).on_changed,
            call_ensures(old(self).on_changed, (text,), ()),
    {
        self.text = String::from_str(text);
        (self.on_changed)(text);
    }
}

/// A text field that shows `value` as `codec` writes it. When the text
/// changes, the codec reads it; a value that reads well goes to `on_update`,
/// and text that does not read sets the warning.
pub fn validated_text_entry_c<C: Codec, U: Fn(C::Value)>(
    value: C::Value,
    codec: C,
    on_update: U,
) -> (entry: ValidatedTextEntry<C, U>)
    ensures
        entry.text@ == codec.text(value),
        !entry.warning,
        entry.codec == codec,
        entry.on_update == on_update,
{
    let text = codec.render(&value);
    ValidatedTextEntry { text, warning: false, codec, on_update }
}

impl<C: Codec, U: Fn(C::Value)> ValidatedTextEntry<C, U> {
    /// The user has changed the text to `text`. The field holds the text.
    /// Where the text stands for a value, the warning is cleared and the
    /// value has gone to `on_update`. Where it stands for none, the warning
    /// is set and nothing is handed on: whoever holds the last good value
    /// keeps it.
    pub fn set_text(&mut self, text: &str)
        requires
            forall|value: C::Value| call_requires(old(self).on_update, (value,)),
        ensures
            final(self).text@ == text@,
            final(self).codec == old(self).codec,
            final(self).on_update == old(self).on_update,
            match old(self).codec.reading(text@) {
                Some(value) => !final(self).warning && call_ensures(
                    old(self).on_update,
                    (value,),
                    (),
                ),
                None => final(self).warning,
            },
    {
        self.text = String::from_str(text);
        match self.codec.parse(text) {
            Ok(value) => {
                self.warning = false;
                (self.on_update)(value);
            },
            Err(_) => {
                self.warning = true;
            },
        }
    }
}

} // verus!
