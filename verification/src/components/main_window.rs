//! The pages of the main window.
use vstd::prelude::*;
use vstd::string::StringExecFns;

verus! {

/// A page of the main window: a component under a tab with a label.
pub struct Page<T> {
    pub label: String,
    pub component: T,
}

impl<T> Page<T> {
    /// A page that shows `component` under the label `label_text`.
    pub fn new(label_text: &str, component: T) -> (page: Page<T>)
        ensures
            page.label@ == label_text@,
            page.component == component,
    {
        Page { label: String::from_str(label_text), component }
    }

    /// Changes the label of the tab; the component stays.
    pub fn set_label(&mut self, label_text: &str)
        ensures
            final(self).label@ == label_text@,
            final(self).component == old(self).component,
    {
        self.label = String::from_str(label_text);
    }
}

} // verus!
