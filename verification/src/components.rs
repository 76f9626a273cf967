//! The parts of the interface that decide something: what an edit of a text
//! field means, which option of a menu is chosen, which range a pair of
//! date selectors stands for, what stands where in a box. Each is the state
//! of a widget without the widget; whoever draws it forwards the user's
//! actions and shows the state.
pub mod about;
pub mod basics;
pub mod changes;
pub mod date_selector;
pub mod day;
pub mod history;
pub mod main_window;
pub mod range_selector;
pub mod rep_duration;
pub mod set_rep;
pub mod settings;
pub mod steps;
pub mod swappable;
pub mod time_distance;
pub mod time_distance_row;
pub mod weight;
pub mod widget;

pub use about::About;
pub use basics::{
    date_c, distance_c, distance_edit_c, dropmenu_c, duration_c, duration_edit_c,
    labeled_widget_c, text_entry_c, time_c, time_edit_c, validated_text_entry_c, Container,
    LabelPosition, Menu, MenuOptions, TextEntry, ValidatedTextEntry,
};
pub use date_selector::{date_selector_c, DateSelector};
pub use day::{day_c, DayEdit};
pub use history::days_on_show;
pub use main_window::Page;
pub use range_selector::RangeSelector;
pub use rep_duration::rep_duration_c;
pub use set_rep::set_rep_c;
pub use settings::{language_menu, timezone_menu, units_menu};
pub use steps::{steps_c, steps_edit_c, StepsEdit};
pub use swappable::SwappableComponent;
pub use time_distance::TimeDistanceEdit;
pub use time_distance_row::{
    time_distance_c, time_distance_record_edit_c, TimeDistanceRecordEdit,
};
pub use weight::{weight_record_c, weight_record_edit_c, WeightEdit};
pub use widget::{Component, Orientation, Widget};
