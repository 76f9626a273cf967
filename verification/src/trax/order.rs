//! Records in the order of their timestamps.
use crate::dates::Timestamp;
use crate::trax::record::TraxRecord;
use vstd::prelude::*;

verus! {

/// Whether the instant `a` is the instant `b` or an earlier one.
pub open spec fn not_after(a: Timestamp, b: Timestamp) -> bool {
    a.seconds < b.seconds || (a.seconds == b.seconds && a.nanos <= b.nanos)
}

/// Whether each record of `s` is at or before every later one.
pub open spec fn in_order(s: Seq<TraxRecord>) -> bool {
    forall|i: int, j: int| 0 <= i < j < s.len() ==> not_after(s[i].stamp(), s[j].stamp())
}

/// `sorted` with `x` put after the last record that is not after it.
pub open spec fn inserted(sorted: Seq<TraxRecord>, x: TraxRecord) -> Seq<TraxRecord>
    decreases sorted.len(),
{
    if sorted.len() == 0 {
        seq![x]
    } else if not_after(sorted.last().stamp(), x.stamp()) {
        sorted.push(x)
    } else {
        inserted(sorted.drop_last(), x).push(sorted.last())
    }
}

/// The records of `s` in the order of their timestamps; records of one
/// instant keep the order they had.
pub open spec fn by_time(s: Seq<TraxRecord>) -> Seq<TraxRecord>
    decreases s.len(),
{
    if s.len() == 0 {
        s
    } else {
        inserted(by_time(s.drop_last()), s.last())
    }
}

/// Putting a record in leaves what was there and adds the record, and it
/// keeps an ordered sequence ordered.
pub proof fn lemma_inserted(sorted: Seq<TraxRecord>, x: TraxRecord)
    ensures
        inserted(sorted, x).len() == sorted.len() + 1,
        inserted(sorted, x).to_multiset() == sorted.to_multiset().insert(x),
        in_order(sorted) ==> in_order(inserted(sorted, x)),
    decreases sorted.len(),
{
    broadcast use vstd::seq_lib::group_to_multiset_ensures;

    let out = inserted(sorted, x);
    if sorted.len() == 0 {
        assert(sorted =~= Seq::<TraxRecord>::empty());
        assert(out =~= Seq::<TraxRecord>::empty().push(x));
    } else if not_after(sorted.last().stamp(), x.stamp()) {
        if in_order(sorted) {
            assert forall|i: int, j: int| 0 <= i < j < out.len() implies not_after(
                out[i].stamp(),
                out[j].stamp(),
            ) by {
                if j == sorted.len() && i < sorted.len() - 1 {
                    assert(not_after(sorted[i].stamp(), sorted.last().stamp()));
                }
            }
        }
    } else {
        let front = sorted.drop_last();
        let last = sorted.last();
        lemma_inserted(front, x);
        let mid = inserted(front, x);
        assert(sorted =~= front.push(last));
        assert(sorted.to_multiset() == front.to_multiset().insert(last));
        assert(out.to_multiset() =~= sorted.to_multiset().insert(x));
        if in_order(sorted) {
            assert(in_order(front)) by {
                assert forall|i: int, j: int| 0 <= i < j < front.len() implies not_after(
                    front[i].stamp(),
                    front[j].stamp(),
                ) by {
                    assert(front[i] == sorted[i] && front[j] == sorted[j]);
                }
            }
            assert forall|k: int| 0 <= k < mid.len() implies not_after(
                mid[k].stamp(),
                last.stamp(),
            ) by {
                assert(mid.to_multiset().count(mid[k]) > 0);
                if mid[k] != x {
                    assert(front.to_multiset().count(mid[k]) > 0);
                    let w = choose|w: int| 0 <= w < front.len() && front[w] == mid[k];
                    assert(not_after(sorted[w].stamp(), sorted[sorted.len() - 1].stamp()));
                }
            }
            assert forall|i: int, j: int| 0 <= i < j < out.len() implies not_after(
                out[i].stamp(),
                out[j].stamp(),
            ) by {
                if j < mid.len() {
                    assert(out[i] == mid[i] && out[j] == mid[j]);
                } else {
                    assert(out[i] == mid[i]);
                }
            }
        }
    }
}

/// Ordering by time gives the same records, each as often as before, with
/// each at or before every later one.
pub proof fn lemma_by_time(s: Seq<TraxRecord>)
    ensures
        by_time(s).len() == s.len(),
        by_time(s).to_multiset() == s.to_multiset(),
        in_order(by_time(s)),
    decreases s.len(),
{
    broadcast use vstd::seq_lib::group_to_multiset_ensures;

    if s.len() > 0 {
        lemma_by_time(s.drop_last());
        lemma_inserted(by_time(s.drop_last()), s.last());
        assert(s =~= s.drop_last().push(s.last()));
    } else {
        assert(s.to_multiset() =~= by_time(s).to_multiset());
    }
}

/// Whether the instant `a` is the instant `b` or an earlier one.
pub fn is_not_after(a: &Timestamp, b: &Timestamp) -> (r: bool)
    ensures
        r == not_after(*a, *b),
{
    a.seconds < b.seconds || (a.seconds == b.seconds && a.nanos <= b.nanos)
}

/// Where `x` goes in `sorted`: after the last record that is not after it.
fn place(sorted: &Vec<TraxRecord>, x: &TraxRecord) -> (at: usize)
    ensures
        at <= sorted@.len(),
        inserted(sorted@, *x) == sorted@.insert(at as int, *x),
{
    let mut at: usize = sorted.len();
    assert(sorted@.take(at as int) =~= sorted@);
    assert(sorted@.skip(at as int) =~= Seq::<TraxRecord>::empty());
    while at > 0 && !is_not_after(sorted[at - 1].timestamp(), x.timestamp())
        invariant
            at <= sorted@.len(),
            inserted(sorted@, *x) == inserted(sorted@.take(at as int), *x) + sorted@.skip(
                at as int,
            ),
        decreases at,
    {
        proof {
            let front = sorted@.take(at as int);
            assert(front.drop_last() =~= sorted@.take(at - 1));
            assert(front.last() == sorted@[at - 1]);
            assert(inserted(front.drop_last(), *x).push(front.last()) + sorted@.skip(at as int)
                =~= inserted(sorted@.take(at - 1), *x) + sorted@.skip(at - 1));
        }
        at -= 1;
    }
    proof {
        let front = sorted@.take(at as int);
        if at == 0 {
            assert(front =~= Seq::<TraxRecord>::empty());
        } else {
            assert(front.last() == sorted@[at - 1]);
        }
        assert(inserted(front, *x) =~= front.push(*x));
        assert(front.push(*x) + sorted@.skip(at as int) =~= sorted@.insert(at as int, *x));
    }
    at
}

/// The records in the order of their timestamps; records of one instant
/// keep the order they had.
pub fn sort_by_time(records: Vec<TraxRecord>) -> (sorted: Vec<TraxRecord>)
    ensures
        sorted@ == by_time(records@),
{
    let ghost all = records@;
    let mut sorted: Vec<TraxRecord> = Vec::new();
    assert(all.take(0) =~= Seq::<TraxRecord>::empty());
    for record in it: records
        invariant
            it.seq() == all,
            sorted@ == by_time(all.take(it.index() as int)),
    {
        proof {
            let next = all.take(it.index() + 1);
            assert(next.drop_last() =~= all.take(it.index() as int));
            assert(next.last() == record);
        }
        let at = place(&sorted, &record);
        sorted.insert(at, record);
    }
    assert(all.take(all.len() as int) =~= all);
    sorted
}

} // verus!
