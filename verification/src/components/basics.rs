//! The plain building blocks.
pub mod container;
pub mod date;
pub mod distance;
pub mod dropmenu;
pub mod duration;
pub mod labeled_widget;
pub mod text_entry;
pub mod time;

pub use container::Container;
pub use date::date_c;
pub use distance::{distance_c, distance_edit_c};
pub use dropmenu::{dropmenu_c, Menu, MenuOptions};
pub use duration::{duration_c, duration_edit_c};
pub use labeled_widget::{labeled_widget_c, LabelPosition};
pub use text_entry::{text_entry_c, validated_text_entry_c, TextEntry, ValidatedTextEntry};
pub use time::{time_c, time_edit_c};
