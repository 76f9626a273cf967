//! A widget with a label beside it.
use crate::components::widget::{children_of, is_box, is_label, Component, Orientation, Widget};
use vstd::prelude::*;
use vstd::string::StringExecFns;

verus! {

/// On which side of a widget its label stands.
#[derive(Clone, Copy, Debug, PartialEq, Eq, Structural)]
pub enum LabelPosition {
    Before,
    After,
}

/// Whether `widget` is what `w` shows with the label `label` beside it: a
/// horizontal box, spaced by five, of the label and the widget, the label
/// first or last as `position` says.
pub open spec fn labeled<A: Component>(
    widget: Widget,
    label: Seq<char>,
    w: A,
    position: LabelPosition,
) -> bool {
    let children = children_of(widget);
    &&& is_box(widget, Orientation::Horizontal, 5)
    &&& children.len() == 2
    &&& match position {
        LabelPosition::Before => is_label(children[0], label) && w.shows(children[1]),
        LabelPosition::After => w.shows(children[0]) && is_label(children[1], label),
    }
}

/// What `w` shows with the label `label` before or after it.
pub fn labeled_widget_c<A: Component>(label: &str, w: A, position: LabelPosition) -> (widget:
    Widget)
    ensures
        labeled(widget, label@, w, position),
{
    let mut children: Vec<Widget> = Vec::new();
    match position {
        LabelPosition::Before => {
            children.push(Widget::Label(String::from_str(label)));
            children.push(w.widget());
        },
        LabelPosition::After => {
            children.push(w.widget());
            children.push(Widget::Label(String::from_str(label)));
        },
    }
    Widget::Box { orientation: Orientation::Horizontal, spacing: 5, children }
}

} // verus!
