//! One record of the log, whatever its kind.
use crate::dates::Timestamp;
use crate::si::Kilogram;
use crate::trax::comments::Comments;
use crate::trax::repduration::RepDurationRecord;
use crate::trax::setrep::SetRepRecord;
use crate::trax::steps::StepRecord;
use crate::trax::timedistance::TimeDistanceRecord;
use crate::trax::weight::WeightRecord;
use emseries::UniqueId;
use vstd::prelude::*;

verus! {

/// The identifier that the record store gives a record. The core hands
/// identifiers on and never looks inside one.
#[verifier::external_type_specification]
#[verifier::external_body]
pub struct ExUniqueId(UniqueId);

/// A record of the log.
#[derive(Clone, Debug, PartialEq)]
pub enum TraxRecord {
    Comments(Comments),
    RepDuration(RepDurationRecord),
    SetRep(SetRepRecord),
    Steps(StepRecord),
    TimeDistance(TimeDistanceRecord),
    Weight(WeightRecord),
}

impl TraxRecord {
    /// The one timestamp that says when the record belongs.
    pub open spec fn stamp(self) -> Timestamp {
        match self {
            TraxRecord::Comments(rec) => rec.date,
            TraxRecord::RepDuration(rec) => rec.date,
            TraxRecord::SetRep(rec) => rec.date,
            TraxRecord::Steps(rec) => rec.date,
            TraxRecord::TimeDistance(rec) => rec.timestamp,
            TraxRecord::Weight(rec) => rec.date,
        }
    }

    /// A weighing, as a record.
    pub fn weight(date: Timestamp, weight: Kilogram) -> (record: TraxRecord)
        ensures
            record == TraxRecord::Weight(WeightRecord { date, weight }),
    {
        TraxRecord::Weight(WeightRecord::new(date, weight))
    }

    /// The one timestamp that says when the record belongs.
    pub fn timestamp(&self) -> (stamp: &Timestamp)
        ensures
            *stamp == self.stamp(),
    {
        match self {
            TraxRecord::Comments(rec) => &rec.date,
            TraxRecord::RepDuration(rec) => &rec.date,
            TraxRecord::SetRep(rec) => &rec.date,
            TraxRecord::Steps(rec) => &rec.date,
            TraxRecord::TimeDistance(rec) => &rec.timestamp,
            TraxRecord::Weight(rec) => &rec.date,
        }
    }
}

} // verus!
