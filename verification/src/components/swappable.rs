//! A box that always holds exactly one component, which can be exchanged.
use crate::components::widget::{children_of, is_box, Component, Orientation, Widget};
use vstd::prelude::*;

verus! {

/// A place on the screen that always shows one component.
pub struct SwappableComponent {
    pub child: Widget,
}

impl SwappableComponent {
    /// A place that shows `initial_component`.
    pub fn new<C: Component>(initial_component: C) -> (place: SwappableComponent)
        ensures
            initial_component.shows(place.child),
    {
        SwappableComponent { child: initial_component.widget() }
    }

    /// Shows `new_component` in the place of the component shown so far.
    pub fn swap<C: Component>(&mut self, new_component: C)
        ensures
            new_component.shows(final(self).child),
    {
        self.child = new_component.widget();
    }
}

impl Component for SwappableComponent {
    /// A vertical box, spaced by five, around the one component.
    open spec fn shows(self, widget: Widget) -> bool {
        &&& is_box(widget, Orientation::Vertical, 5)
        &&& children_of(widget) == seq![self.child]
    }

    fn widget(self) -> (widget: Widget) {
        let mut children: Vec<Widget> = Vec::new();
        children.push(self.child);
        assert(children@ =~= seq![self.child]);
        Widget::Box { orientation: Orientation::Vertical, spacing: 5, children }
    }
}

} // verus!
