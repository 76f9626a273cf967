//! The workouts of a day while they are edited.
use crate::components::changes::{put, set_record};
use crate::dates::Timestamp;
use crate::trax::timedistance::{ActivityType, TimeDistanceRecord};
use emseries::UniqueId;
use vstd::prelude::*;

verus! {

/// The workouts of a day while they are edited: the workouts as the store
/// has them, the changes made to them, and the workouts added.
pub struct TimeDistanceEdit {
    pub records: Vec<(UniqueId, TimeDistanceRecord)>,
    pub updated_records: Vec<(UniqueId, TimeDistanceRecord)>,
    pub new_records: Vec<(UniqueId, TimeDistanceRecord)>,
}

/// The workout that the button for a new workout adds: cycling at `start`,
/// with no distance, duration or comment yet.
pub open spec fn blank_workout(start: Timestamp) -> TimeDistanceRecord {
    TimeDistanceRecord {
        timestamp: start,
        activity: ActivityType::Cycling,
        distance: None,
        duration: None,
        comments: None,
    }
}

/// A copy of a list of workouts.
fn copy_of(list: &Vec<(UniqueId, TimeDistanceRecord)>) -> (copy: Vec<(UniqueId, TimeDistanceRecord)>)
    ensures
        copy@ == list@,
{
    let mut copy: Vec<(UniqueId, TimeDistanceRecord)> = Vec::new();
    let mut i: usize = 0;
    while i < list.len()
        invariant
            i <= list@.len(),
            copy@ == list@.take(i as int),
        decreases list@.len() - i,
    {
        copy.push((list[i].0.clone(), list[i].1.clone()));
        i += 1;
        assert(copy@ =~= list@.take(i as int));
    }
    assert(list@.take(list@.len() as int) =~= list@);
    copy
}

impl TimeDistanceEdit {
    /// The form for the workouts `records`, with nothing changed or added yet.
    pub fn new(records: Vec<(UniqueId, TimeDistanceRecord)>) -> (edit: TimeDistanceEdit)
        ensures
            edit.records == records,
            edit.updated_records@.len() == 0,
            edit.new_records@.len() == 0,
    {
        TimeDistanceEdit { records, updated_records: Vec::new(), new_records: Vec::new() }
    }

    /// The button for a new workout was clicked: a blank workout at `start`
    /// is added under the identifier `id`.
    pub fn add_workout(&mut self, id: UniqueId, start: Timestamp)
        ensures
            final(self).new_records@ == put(old(self).new_records@, id, blank_workout(start)),
            final(self).records == old(self).records,
            final(self).updated_records == old(self).updated_records,
    {
        set_record(
            &mut self.new_records,
            id,
            TimeDistanceRecord::new(start, ActivityType::Cycling, None, None, None),
        );
    }

    /// A workout of the store was changed to `record`.
    pub fn record_updated(&mut self, id: UniqueId, record: TimeDistanceRecord)
        ensures
            final(self).updated_records@ == put(old(self).updated_records@, id, record),
            final(self).records == old(self).records,
            final(self).new_records == old(self).new_records,
    {
        set_record(&mut self.updated_records, id, record);
    }

    /// A workout that was added was changed to `record`.
    pub fn new_record_updated(&mut self, id: UniqueId, record: TimeDistanceRecord)
        ensures
            final(self).new_records@ == put(old(self).new_records@, id, record),
            final(self).records == old(self).records,
            final(self).updated_records == old(self).updated_records,
    {
        set_record(&mut self.new_records, id, record);
    }

    /// The changes made to workouts of the store, each with the identifier
    /// of its workout.
    pub fn updated_records(&self) -> (changes: Vec<(UniqueId, TimeDistanceRecord)>)
        ensures
            changes@ == self.updated_records@,
    {
        copy_of(&self.updated_records)
    }

    /// The workouts added, each with the identifier it was added under.
    pub fn new_records(&self) -> (added: Vec<(UniqueId, TimeDistanceRecord)>)
        ensures
            added@ == self.new_records@,
    {
        copy_of(&self.new_records)
    }

    /// The changes made to workouts of the store, and the workouts added.
    pub fn changes(self) -> (changes: (
        Vec<(UniqueId, TimeDistanceRecord)>,
        Vec<(UniqueId, TimeDistanceRecord)>,
    ))
        ensures
            changes.0 == self.updated_records,
            changes.1 == self.new_records,
    {
        (self.updated_records, self.new_records)
    }
}

} // verus!
