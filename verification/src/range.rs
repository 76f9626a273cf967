//! Ranges of calendar dates, and the records of a range grouped by date.
use crate::dates::{CalendarDate, Timezone};
use crate::trax::TraxRecord;
use emseries::UniqueId;
use std::collections::HashMap;
use vstd::prelude::*;

verus! {

broadcast use vstd::std_specs::hash::group_hash_axioms;

/// A range from `start` to `end`, both included.
#[derive(Clone, Debug, PartialEq)]
pub struct Range<A> {
    pub start: A,
    pub end: A,
}

/// A range of calendar dates, both ends included and read in one time zone.
pub type DateRange = Range<CalendarDate>;

impl<A> Range<A> {
    /// The range from `start` to `end`.
    pub fn new(start: A, end: A) -> (range: Range<A>)
        ensures
            range.start == start,
            range.end == end,
    {
        Range { start, end }
    }
}

/// How many days lie from day `start` to day `end`, both included: none when
/// the range is inverted.
pub open spec fn day_count(start: int, end: int) -> nat {
    if start <= end {
        (end - start + 1) as nat
    } else {
        0
    }
}

/// The dates from day `start` to day `end`, both included, in order.
pub open spec fn dates_between(start: int, end: int) -> Seq<CalendarDate> {
    Seq::new(day_count(start, end), |i: int| CalendarDate { days: (start + i) as i32 })
}

/// True of the records whose timestamp falls on day `day` in `zone`.
pub open spec fn on_day(zone: Timezone, day: i32) -> spec_fn((UniqueId, TraxRecord)) -> bool {
    |entry: (UniqueId, TraxRecord)| entry.1.stamp().day_in(zone) == Some(day)
}

/// The records of day `day` in `zone`, in the order in which `records` has them.
pub open spec fn records_on(records: Seq<(UniqueId, TraxRecord)>, zone: Timezone, day: i32) -> Seq<
    (UniqueId, TraxRecord),
> {
    records.filter(on_day(zone, day))
}

/// What it is for `groups` to be `records` grouped by date over `range`: one
/// group for each day of the range and for no other day, each holding the
/// records of its day in their order.
pub open spec fn grouped(
    groups: Map<i32, Vec<(UniqueId, TraxRecord)>>,
    range: Range<CalendarDate>,
    records: Seq<(UniqueId, TraxRecord)>,
    zone: Timezone,
) -> bool {
    &&& forall|d: i32| #[trigger] groups.contains_key(d) <==> range.start.days <= d <= range.end.days
    &&& forall|d: i32|
        range.start.days <= d <= range.end.days ==> (#[trigger] groups[d])@ == records_on(
            records,
            zone,
            d,
        )
}

/// The dates of a range, from its start to its end; none when the range is
/// inverted.
pub fn dates_in_range(range: &Range<CalendarDate>) -> (dates: Vec<CalendarDate>)
    ensures
        dates@ == dates_between(range.start.days as int, range.end.days as int),
{
    let start: i64 = range.start.days as i64;
    let end: i64 = range.end.days as i64;
    let mut dates: Vec<CalendarDate> = Vec::new();
    let mut current: i64 = start;
    assert(dates@ =~= dates_between(start as int, current - 1));
    while current <= end
        invariant
            start == range.start.days,
            end == range.end.days,
            start <= current,
            start <= end ==> current <= end + 1,
            start > end ==> current == start,
            dates@ == dates_between(start as int, current - 1),
        decreases end + 1 - current,
    {
        dates.push(CalendarDate { days: current as i32 });
        current += 1;
        assert(dates@ =~= dates_between(start as int, current - 1));
    }
    assert(dates_between(start as int, current - 1) =~= dates_between(start as int, end as int));
    dates
}

/// Filtering a sequence with one more element keeps that element or not
/// and changes nothing else.
pub proof fn lemma_filter_push<A>(s: Seq<A>, x: A, pred: spec_fn(A) -> bool)
    ensures
        s.push(x).filter(pred) == (if pred(x) {
            s.filter(pred).push(x)
        } else {
            s.filter(pred)
        }),
{
    reveal(Seq::filter);
    assert(s.push(x).drop_last() =~= s);
}

/// The days from `lo` to `hi` are finitely many, and `day_count` counts them.
pub proof fn lemma_day_set(lo: int, hi: int)
    requires
        lo <= hi ==> i32::MIN <= lo && hi <= i32::MAX,
    ensures
        Set::new(|d: i32| lo <= d <= hi).finite(),
        Set::new(|d: i32| lo <= d <= hi).len() == day_count(lo, hi),
    decreases day_count(lo, hi),
{
    let s = Set::new(|d: i32| lo <= d <= hi);
    if lo > hi {
        assert(s =~= Set::<i32>::empty());
    } else {
        lemma_day_set(lo, hi - 1);
        let t = Set::new(|d: i32| lo <= d <= hi - 1);
        assert(s =~= t.insert(hi as i32));
        assert(!t.contains(hi as i32));
    }
}

/// One group per day of the range: a grouping has exactly as many keys as
/// the range has days, one more than the distance from start to end, and
/// none when the start lies after the end.
pub proof fn lemma_group_count(
    groups: Map<i32, Vec<(UniqueId, TraxRecord)>>,
    range: Range<CalendarDate>,
    records: Seq<(UniqueId, TraxRecord)>,
    zone: Timezone,
)
    requires
        grouped(groups, range, records, zone),
    ensures
        groups.dom().finite(),
        groups.len() == day_count(range.start.days as int, range.end.days as int),
        range.start.days <= range.end.days ==> groups.len() == range.end.days - range.start.days
            + 1,
        range.start.days > range.end.days ==> groups.len() == 0,
{
    let lo = range.start.days as int;
    let hi = range.end.days as int;
    lemma_day_set(lo, hi);
    assert(groups.dom() =~= Set::new(|d: i32| lo <= d <= hi)) by {
        assert forall|d: i32| groups.dom().contains(d) <==> lo <= d <= hi by {
            assert(groups.contains_key(d) <==> lo <= d <= hi);
        }
    }
}

/// Every record is in the group of its own day and in no other: a record
/// whose date in the zone lies in the range appears in that day's group and
/// in none of the others, and a record whose date lies outside the range, or
/// that has none, appears in no group.
pub proof fn lemma_record_in_one_group(
    groups: Map<i32, Vec<(UniqueId, TraxRecord)>>,
    range: Range<CalendarDate>,
    records: Seq<(UniqueId, TraxRecord)>,
    zone: Timezone,
    i: int,
)
    requires
        grouped(groups, range, records, zone),
        0 <= i < records.len(),
    ensures
        forall|d: i32| #[trigger]
            groups.contains_key(d) ==> (groups[d]@.contains(records[i]) <==> records[i].1.stamp().day_in(
                zone,
            ) == Some(d)),
{
    assert forall|d: i32| #[trigger] groups.contains_key(d) implies (groups[d]@.contains(
        records[i],
    ) <==> records[i].1.stamp().day_in(zone) == Some(d)) by {
        let pred = on_day(zone, d);
        let group = records.filter(pred);
        assert(groups[d]@ == group);
        if pred(records[i]) {
            records.lemma_filter_contains(pred, i);
        }
        if group.contains(records[i]) {
            let j = choose|j: int| 0 <= j < group.len() && group[j] == records[i];
            records.lemma_filter_pred(pred, j);
        }
    }
}

/// Groups the records of a range by the calendar date on which each falls
/// in `zone`. Every date of the range gets a group, an empty one where
/// nothing was recorded; within a group the records keep their order. The
/// groups are keyed by day number.
pub fn group_by_date(
    range: &Range<CalendarDate>,
    records: Vec<(UniqueId, TraxRecord)>,
    zone: &Timezone,
) -> (groups: HashMap<i32, Vec<(UniqueId, TraxRecord)>>)
    ensures
        grouped(groups@, *range, records@, *zone),
        groups@.len() == day_count(range.start.days as int, range.end.days as int),
{
    let start: i32 = range.start.days;
    let end: i32 = range.end.days;
    let mut groups: HashMap<i32, Vec<(UniqueId, TraxRecord)>> = HashMap::new();
    let mut current: i64 = start as i64;
    while current <= end as i64
        invariant
            start <= current,
            start <= end ==> current <= end + 1,
            start > end ==> current == start,
            forall|d: i32| #[trigger] groups@.contains_key(d) <==> start <= d < current,
            forall|d: i32| start <= d < current ==> (#[trigger] groups@[d])@.len() == 0,
        decreases end + 1 - current,
    {
        groups.insert(current as i32, Vec::new());
        current += 1;
    }
    let ghost all = records@;
    assert forall|d: i32| start <= d <= end implies (#[trigger] groups@[d])@ == records_on(
        all.take(0),
        *zone,
        d,
    ) by {
        reveal(Seq::filter);
        assert(all.take(0) =~= Seq::empty());
        assert(groups@[d]@ =~= Seq::empty());
    }
    assert(forall|d: i32| #[trigger] groups@.contains_key(d) <==> start <= d <= end);
    assert(grouped(groups@, *range, all.take(0), *zone));
    for entry in it: records
        invariant
            it.seq() == all,
            start == range.start.days,
            end == range.end.days,
            grouped(groups@, *range, all.take(it.index() as int), *zone),
    {
        let ghost before = all.take(it.index() as int);
        let ghost after = all.take(it.index() + 1);
        proof {
            assert(after =~= before.push(entry));
            assert forall|d: i32| true implies #[trigger] records_on(after, *zone, d) == (if on_day(
                *zone,
                d,
            )(entry) {
                records_on(before, *zone, d).push(entry)
            } else {
                records_on(before, *zone, d)
            }) by {
                lemma_filter_push(before, entry, on_day(*zone, d));
            }
        }
        match entry.1.timestamp().date_in(zone) {
            Some(date) => {
                let day = date.days;
                if start <= day && day <= end {
                    match groups.remove(&day) {
                        Some(found) => {
                            let mut group = found;
                            group.push(entry);
                            groups.insert(day, group);
                        },
                        None => unreached(),
                    }
                }
            },
            None => {},
        }
        assert(grouped(groups@, *range, after, *zone));
    }
    assert(all.take(all.len() as int) =~= all);
    proof {
        lemma_group_count(groups@, *range, all, *zone);
    }
    groups
}

} // verus!
