//! Exercises done in sets of repetitions.
use crate::dates::Timestamp;
use vstd::prelude::*;

verus! {

/// An exercise counted in repetitions.
#[derive(Clone, Copy, Debug, PartialEq, Eq, Structural)]
pub enum ActivityType {
    Pushups,
    Situps,
    Squats,
}

impl ActivityType {
    /// The name of the exercise.
    pub open spec fn name_text(self) -> Seq<char> {
        match self {
            ActivityType::Pushups => "Pushups"@,
            ActivityType::Situps => "Situps"@,
            ActivityType::Squats => "Squats"@,
        }
    }

    /// The name of the exercise.
    pub fn name(&self) -> (name: &'static str)
        ensures
            name@ == self.name_text(),
    {
        match self {
            ActivityType::Pushups => "Pushups",
            ActivityType::Situps => "Situps",
            ActivityType::Squats => "Squats",
        }
    }
}

/// Sets of an exercise, each a number of repetitions.
#[derive(Clone, Debug, PartialEq)]
pub struct SetRepRecord {
    pub date: Timestamp,
    pub activity: ActivityType,
    pub sets: Vec<u32>,
}

impl SetRepRecord {
    /// Sets of `activity` done at `date`.
    pub fn new(date: Timestamp, activity: ActivityType, sets: Vec<u32>) -> (record: SetRepRecord)
        ensures
            record == (SetRepRecord { date, activity, sets }),
    {
        SetRepRecord { date, activity, sets }
    }

    /// When the sets were done.
    pub fn timestamp(&self) -> (stamp: Timestamp)
        ensures
            stamp == self.date,
    {
        self.date.clone()
    }
}

} // verus!
