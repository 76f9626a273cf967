//! Step counts.
use crate::dates::Timestamp;
use vstd::prelude::*;

verus! {

/// The steps walked on a day.
#[derive(Clone, Debug, PartialEq)]
pub struct StepRecord {
    pub date: Timestamp,
    pub steps: u32,
}

impl StepRecord {
    /// A count of steps for the day of `date`.
    pub fn new(date: Timestamp, steps: u32) -> (record: StepRecord)
        ensures
            record == (StepRecord { date, steps }),
    {
        StepRecord { date, steps }
    }

    /// The day the steps were counted on.
    pub fn timestamp(&self) -> (stamp: Timestamp)
        ensures
            stamp == self.date,
    {
        self.date.clone()
    }
}

} // verus!
