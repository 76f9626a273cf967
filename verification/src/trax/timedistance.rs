//! Workouts measured by time and distance.
use crate::dates::Timestamp;
use crate::si::{Meter, Second};
use crate::strings::same_text;
use vstd::prelude::*;
use vstd::string::StringExecFns;

verus! {

/// What was done in a workout measured by time and distance.
#[derive(Clone, Copy, Debug, PartialEq, Eq, Structural)]
pub enum ActivityType {
    Cycling,
    Rowing,
    Running,
    Swimming,
    Walking,
}

/// The activities, in the order in which a menu lists them.
pub open spec fn all_activities() -> Seq<ActivityType> {
    seq![
        ActivityType::Cycling,
        ActivityType::Rowing,
        ActivityType::Running,
        ActivityType::Swimming,
        ActivityType::Walking,
    ]
}

/// The activities, in the order in which a menu lists them.
pub fn activity_types() -> (all: Vec<ActivityType>)
    ensures
        all@ == all_activities(),
{
    let mut all: Vec<ActivityType> = Vec::new();
    all.push(ActivityType::Cycling);
    all.push(ActivityType::Rowing);
    all.push(ActivityType::Running);
    all.push(ActivityType::Swimming);
    all.push(ActivityType::Walking);
    assert(all@ =~= all_activities());
    all
}

/// The activity that a name stands for, if it is the name of one.
pub open spec fn activity_of_text(s: Seq<char>) -> Option<ActivityType> {
    if s == "Cycling"@ {
        Some(ActivityType::Cycling)
    } else if s == "Rowing"@ {
        Some(ActivityType::Rowing)
    } else if s == "Running"@ {
        Some(ActivityType::Running)
    } else if s == "Swimming"@ {
        Some(ActivityType::Swimming)
    } else if s == "Walking"@ {
        Some(ActivityType::Walking)
    } else {
        None
    }
}

impl ActivityType {
    /// The name of the activity.
    pub open spec fn name_text(self) -> Seq<char> {
        match self {
            ActivityType::Cycling => "Cycling"@,
            ActivityType::Rowing => "Rowing"@,
            ActivityType::Running => "Running"@,
            ActivityType::Swimming => "Swimming"@,
            ActivityType::Walking => "Walking"@,
        }
    }

    /// The name of the activity, under which it is stored and tagged.
    pub fn name(&self) -> (name: &'static str)
        ensures
            name@ == self.name_text(),
    {
        match self {
            ActivityType::Cycling => "Cycling",
            ActivityType::Rowing => "Rowing",
            ActivityType::Running => "Running",
            ActivityType::Swimming => "Swimming",
            ActivityType::Walking => "Walking",
        }
    }

    /// Reads the name of an activity; any other text is an
    /// `invalid activity string`.
    pub fn try_from(inp: &str) -> (r: Result<ActivityType, &'static str>)
        ensures
            match activity_of_text(inp@) {
                Some(activity) => r == Ok::<ActivityType, &'static str>(activity),
                None => r matches Err(why) && why@ == "invalid activity string"@,
            },
    {
        if same_text(inp, "Cycling") {
            Ok(ActivityType::Cycling)
        } else if same_text(inp, "Rowing") {
            Ok(ActivityType::Rowing)
        } else if same_text(inp, "Running") {
            Ok(ActivityType::Running)
        } else if same_text(inp, "Swimming") {
            Ok(ActivityType::Swimming)
        } else if same_text(inp, "Walking") {
            Ok(ActivityType::Walking)
        } else {
            Err("invalid activity string")
        }
    }

    /// Reading the name of an activity gives the activity.
    pub proof fn lemma_name_round_trip(self)
        ensures
            activity_of_text(self.name_text()) == Some(self),
    {
        reveal_strlit("Cycling");
        reveal_strlit("Rowing");
        reveal_strlit("Running");
        reveal_strlit("Swimming");
        reveal_strlit("Walking");
        assert("Cycling"@.len() == 7 && "Rowing"@.len() == 6 && "Running"@.len() == 7
            && "Swimming"@.len() == 8 && "Walking"@.len() == 7);
        assert("Cycling"@[0] == 'C' && "Running"@[0] == 'R' && "Walking"@[0] == 'W');
    }
}

/// A workout measured by time and distance.
#[derive(Debug, PartialEq)]
pub struct TimeDistanceRecord {
    pub timestamp: Timestamp,
    pub activity: ActivityType,
    pub distance: Option<Meter>,
    pub duration: Option<Second>,
    pub comments: Option<String>,
}

impl TimeDistanceRecord {
    /// A workout with these fields.
    pub fn new(
        timestamp: Timestamp,
        activity: ActivityType,
        distance: Option<Meter>,
        duration: Option<Second>,
        comments: Option<String>,
    ) -> (record: TimeDistanceRecord)
        ensures
            record == (TimeDistanceRecord { timestamp, activity, distance, duration, comments }),
    {
        TimeDistanceRecord { timestamp, activity, distance, duration, comments }
    }

    /// When the workout took place.
    pub fn timestamp(&self) -> (stamp: Timestamp)
        ensures
            stamp == self.timestamp,
    {
        self.timestamp.clone()
    }

    /// The tags under which the workout is indexed: the name of its activity.
    pub fn tags(&self) -> (tags: Vec<String>)
        ensures
            tags@.len() == 1,
            tags@[0]@ == self.activity.name_text(),
    {
        let mut tags: Vec<String> = Vec::new();
        tags.push(String::from_str(self.activity.name()));
        tags
    }
}

impl Clone for TimeDistanceRecord {
    fn clone(&self) -> (copy: TimeDistanceRecord)
        ensures
            copy == *self,
    {
        TimeDistanceRecord {
            timestamp: self.timestamp.clone(),
            activity: self.activity,
            distance: self.distance,
            duration: self.duration,
            comments: match &self.comments {
                Some(text) => Some(text.clone()),
                None => None,
            },
        }
    }
}

} // verus!
