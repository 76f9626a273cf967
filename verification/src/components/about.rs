//! The page about the program.
use crate::components::widget::{
    children_of, is_box, is_label, is_text_view, Component, Orientation, Widget,
};
use crate::i18n::Text;
use vstd::prelude::*;

verus! {

/// The page about the program: its name and version above the libraries it
/// is built on and its license.
pub struct About {
    widget: Widget,
}

/// The text to show for a message: the message, or nothing where the words
/// lack it.
pub open spec fn or_blank(message: Option<Seq<char>>) -> Seq<char> {
    match message {
        Some(text) => text,
        None => Seq::<char>::empty(),
    }
}

/// Whether `widget` is the page about the program in the words of `text`: a
/// vertical box of the name with version, as a label, over a vertical box of
/// the dependencies and the license, each as a text to read.
pub open spec fn about_page(widget: Widget, text: Text) -> bool {
    let rows = children_of(widget);
    &&& is_box(widget, Orientation::Vertical, 5)
    &&& rows.len() == 2
    &&& is_label(rows[0], or_blank(text.phrase("name-with-version"@, Seq::empty())))
    &&& is_box(rows[1], Orientation::Vertical, 5)
    &&& children_of(rows[1]).len() == 2
    &&& is_text_view(
        children_of(rows[1])[0],
        or_blank(text.phrase("dependencies"@, Seq::empty())),
    )
    &&& is_text_view(children_of(rows[1])[1], or_blank(text.phrase("license"@, Seq::empty())))
}

/// The message, or an empty text where there is none.
fn shown_text(message: Option<String>) -> (text: String)
    ensures
        text@ == or_blank(crate::i18n::text::text_of(message)),
{
    match message {
        Some(text) => text,
        None => String::new(),
    }
}

impl About {
    /// What the page shows.
    pub closed spec fn page(self) -> Widget {
        self.widget
    }

    /// The page about the program in the words of `text`.
    pub fn new(text: &Text) -> (about: About)
        ensures
            about_page(about.page(), *text),
    {
        let mut infos: Vec<Widget> = Vec::new();
        infos.push(Widget::TextView(shown_text(text.dependencies())));
        infos.push(Widget::TextView(shown_text(text.license())));
        let info_box = Widget::Box { orientation: Orientation::Vertical, spacing: 5, children: infos };
        let mut rows: Vec<Widget> = Vec::new();
        rows.push(Widget::Label(shown_text(text.name_with_version())));
        rows.push(info_box);
        About { widget: Widget::Box { orientation: Orientation::Vertical, spacing: 5, children: rows } }
    }

    /// The page does not change with the language: it keeps the words it
    /// was made with.
    pub fn set_language(&mut self, text: &Text)
        ensures
            final(self).page() == old(self).page(),
    {
    }
}

impl Component for About {
    closed spec fn shows(self, widget: Widget) -> bool {
        widget == self.widget
    }

    fn widget(self) -> (widget: Widget) {
        self.widget
    }
}

} // verus!
