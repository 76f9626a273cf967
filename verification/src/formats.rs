//! Text forms of the values a user edits.
pub mod codec;
pub mod duration;
pub mod hours_minutes;
pub mod numerals;
pub mod steps;

pub use codec::Codec;
pub use duration::Duration;
pub use hours_minutes::{ClockTime, HoursMinutes};
