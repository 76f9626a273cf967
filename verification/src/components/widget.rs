//! What a component puts on the screen, described as plain data.
use vstd::prelude::*;

verus! {

/// The direction in which a box lays out its children.
#[derive(Clone, Copy, Debug, PartialEq, Eq, Structural)]
pub enum Orientation {
    Horizontal,
    Vertical,
}

/// A description of a widget.
#[derive(Debug, PartialEq)]
pub enum Widget {
    /// A line of text.
    Label(String),
    /// A longer text to read.
    TextView(String),
    /// A box that lays out its children in a row or a column.
    Box { orientation: Orientation, spacing: u32, children: Vec<Widget> },
}

/// Anything that can be put on the screen.
pub trait Component: Sized {
    /// Whether `widget` is what this component shows.
    spec fn shows(self, widget: Widget) -> bool;

    /// Hands over the description of what this component shows.
    fn widget(self) -> (widget: Widget)
        ensures
            self.shows(widget),
    ;
}

impl Component for Widget {
    open spec fn shows(self, widget: Widget) -> bool {
        widget == self
    }

    fn widget(self) -> (widget: Widget) {
        self
    }
}

/// Whether `widget` is a box with this layout.
pub open spec fn is_box(widget: Widget, orientation: Orientation, spacing: u32) -> bool {
    widget matches Widget::Box { orientation: o, spacing: s, .. } && o == orientation && s
        == spacing
}

/// The children of a box; nothing for any other widget.
pub open spec fn children_of(widget: Widget) -> Seq<Widget> {
    match widget {
        Widget::Box { children, .. } => children@,
        _ => Seq::<Widget>::empty(),
    }
}

/// Whether `widget` is a label with this text.
pub open spec fn is_label(widget: Widget, text: Seq<char>) -> bool {
    widget matches Widget::Label(t) && t@ == text
}

/// Whether `widget` is a text view with this text.
pub open spec fn is_text_view(widget: Widget, text: Seq<char>) -> bool {
    widget matches Widget::TextView(t) && t@ == text
}

} // verus!
