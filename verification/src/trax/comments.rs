//! Free-text notes.
use crate::dates::Timestamp;
use vstd::prelude::*;

verus! {

/// A note on a day.
#[derive(Clone, Debug, PartialEq)]
pub struct Comments {
    pub date: Timestamp,
    pub comment: String,
}

impl Comments {
    /// A note written at `date`.
    pub fn new(date: Timestamp, comment: String) -> (record: Comments)
        ensures
            record == (Comments { date, comment }),
    {
        Comments { date, comment }
    }

    /// When the note was written.
    pub fn timestamp(&self) -> (stamp: Timestamp)
        ensures
            stamp == self.date,
    {
        self.date.clone()
    }
}

} // verus!
