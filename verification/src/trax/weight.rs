//! Body weight.
use crate::dates::Timestamp;
use crate::si::Kilogram;
use vstd::prelude::*;

verus! {

/// A weighing.
#[derive(Clone, Debug, PartialEq)]
pub struct WeightRecord {
    pub date: Timestamp,
    pub weight: Kilogram,
}

impl WeightRecord {
    /// A weighing at `date`.
    pub fn new(date: Timestamp, weight: Kilogram) -> (record: WeightRecord)
        ensures
            record == (WeightRecord { date, weight }),
    {
        WeightRecord { date, weight }
    }

    /// When the weight was taken.
    pub fn timestamp(&self) -> (stamp: Timestamp)
        ensures
            stamp == self.date,
    {
        self.date.clone()
    }
}

} // verus!
