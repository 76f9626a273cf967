//! What depends on where the user lives: the words and the unit system.
pub mod text;
pub mod units;

pub use text::Text;
pub use units::UnitSystem;
