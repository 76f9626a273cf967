//! A box that holds at most one widget at a time.
use crate::components::widget::{children_of, is_box, Component, Orientation, Widget};
use vstd::prelude::*;

verus! {

/// A place on the screen for at most one widget, which can be exchanged.
pub struct Container {
    pub widget: Widget,
}

/// Whether `widget` is the box of a container that holds what `w` shows, or
/// nothing for `None`: a horizontal box without spacing.
pub open spec fn holds<A: Component>(widget: Widget, w: Option<A>) -> bool {
    &&& is_box(widget, Orientation::Horizontal, 0)
    &&& match w {
        Some(component) => children_of(widget).len() == 1 && component.shows(
            children_of(widget)[0],
        ),
        None => children_of(widget).len() == 0,
    }
}

/// The box of a container that holds what `w` shows.
fn fill<A: Component>(w: Option<A>) -> (widget: Widget)
    ensures
        holds(widget, w),
{
    let mut children: Vec<Widget> = Vec::new();
    if let Some(component) = w {
        children.push(component.widget());
    }
    Widget::Box { orientation: Orientation::Horizontal, spacing: 0, children }
}

impl Container {
    /// A container that holds what `w` shows, or nothing.
    pub fn new<A: Component>(w: Option<A>) -> (container: Container)
        ensures
            holds(container.widget, w),
    {
        Container { widget: fill(w) }
    }

    /// Puts what `w` shows in the place of whatever the container held;
    /// with `None` the container is left empty.
    pub fn swap<A: Component>(&mut self, w: Option<A>)
        ensures
            holds(final(self).widget, w),
    {
        self.widget = fill(w);
    }
}

impl Component for Container {
    open spec fn shows(self, widget: Widget) -> bool {
        widget == self.widget
    }

    fn widget(self) -> (widget: Widget) {
        self.widget
    }
}

} // verus!
