//! The records of the log: what was measured or done, and when.
pub mod comments;
pub mod order;
pub mod repduration;
pub mod setrep;
pub mod steps;
pub mod timedistance;
pub mod weight;

pub mod record;

pub use record::TraxRecord;
