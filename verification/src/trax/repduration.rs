//! Exercises done in sets that are held for a time.
use crate::dates::Timestamp;
use crate::si::Second;
use vstd::prelude::*;

verus! {

/// An exercise counted by how long it is held.
#[derive(Clone, Copy, Debug, PartialEq, Eq, Structural)]
pub enum ActivityType {
    MartialArts,
    Planks,
    Yoga,
}

impl ActivityType {
    /// The name of the exercise.
    pub open spec fn name_text(self) -> Seq<char> {
        match self {
            ActivityType::MartialArts => "MartialArts"@,
            ActivityType::Planks => "Planks"@,
            ActivityType::Yoga => "Yoga"@,
        }
    }

    /// The name of the exercise.
    pub fn name(&self) -> (name: &'static str)
        ensures
            name@ == self.name_text(),
    {
        match self {
            ActivityType::MartialArts => "MartialArts",
            ActivityType::Planks => "Planks",
            ActivityType::Yoga => "Yoga",
        }
    }
}

/// Sets of an exercise, each held for a span of time.
#[derive(Clone, Debug, PartialEq)]
pub struct RepDurationRecord {
    pub date: Timestamp,
    pub activity: ActivityType,
    pub sets: Vec<Second>,
}

impl RepDurationRecord {
    /// Sets of `activity` done at `date`.
    pub fn new(date: Timestamp, activity: ActivityType, sets: Vec<Second>) -> (record:
        RepDurationRecord)
        ensures
            record == (RepDurationRecord { date, activity, sets }),
    {
        RepDurationRecord { date, activity, sets }
    }

    /// When the sets were done.
    pub fn timestamp(&self) -> (stamp: Timestamp)
        ensures
            stamp == self.date,
    {
        self.date.clone()
    }
}

} // verus!
