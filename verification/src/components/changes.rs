//! Changes waiting to be saved: for each identifier the record it is to get.
//!
//! The changes are kept in a list, in the order in which records were first
//! changed, and not in a hash map: an identifier is opaque to the proofs, so
//! nothing could be proved of a map that hashes it.
use emseries::UniqueId;
use vstd::prelude::*;

verus! {

/// `eq` of `emseries::UniqueId`, which the type derives. Trusted: it says
/// yes exactly of an identifier and itself.
pub assume_specification[ <UniqueId as PartialEq>::eq ](a: &UniqueId, b: &UniqueId) -> (same: bool)
    ensures
        same == (*a == *b),
;

/// Where the first entry for `id` stands in `list`, or `list.len()` where
/// there is none.
pub open spec fn position<R>(list: Seq<(UniqueId, R)>, id: UniqueId) -> int
    decreases list.len(),
{
    if list.len() == 0 {
        0
    } else if list[0].0 == id {
        0
    } else {
        1 + position(list.skip(1), id)
    }
}

/// `list` with the record for `id` set to `record`: in the place of the
/// first entry for `id`, or at the end where there was none.
pub open spec fn put<R>(list: Seq<(UniqueId, R)>, id: UniqueId, record: R) -> Seq<(UniqueId, R)> {
    let at = position(list, id);
    if at < list.len() {
        list.update(at, (id, record))
    } else {
        list.push((id, record))
    }
}

/// The record that `list` holds for `id`, if it holds one.
pub open spec fn lookup<R>(list: Seq<(UniqueId, R)>, id: UniqueId) -> Option<R> {
    let at = position(list, id);
    if at < list.len() {
        Some(list[at].1)
    } else {
        None
    }
}

/// The records of a list of changes, without their identifiers.
pub open spec fn values<R>(list: Seq<(UniqueId, R)>) -> Seq<R> {
    Seq::new(list.len(), |i: int| list[i].1)
}

/// The first entry for an identifier stands where no entry for it comes
/// before and one stands, or the list ends.
pub proof fn lemma_position<R>(list: Seq<(UniqueId, R)>, id: UniqueId, at: int)
    requires
        0 <= at <= list.len(),
        forall|i: int| 0 <= i < at ==> list[i].0 != id,
        at < list.len() ==> list[at].0 == id,
    ensures
        position(list, id) == at,
    decreases list.len(),
{
    if list.len() > 0 && at > 0 {
        let rest = list.skip(1);
        assert forall|i: int| 0 <= i < at - 1 implies rest[i].0 != id by {
            assert(rest[i] == list[i + 1]);
        }
        lemma_position(rest, id, at - 1);
    }
}

/// After a record was put for an identifier it is the record held for it,
/// and what is held for any other identifier is as before.
pub proof fn lemma_put<R>(list: Seq<(UniqueId, R)>, id: UniqueId, record: R, other: UniqueId)
    ensures
        lookup(put(list, id, record), id) == Some(record),
        other != id ==> lookup(put(list, id, record), other) == lookup(list, other),
    decreases list.len(),
{
    let after = put(list, id, record);
    let at = position(list, id);
    lemma_position_bounds(list, id);
    lemma_position_bounds(list, other);
    assert forall|i: int| 0 <= i < at implies after[i].0 != id by {
        assert(after[i] == list[i]);
    }
    lemma_position(after, id, at);
    if other != id {
        let there = position(list, other);
        assert forall|i: int| 0 <= i < there && i < after.len() implies after[i].0 != other by {
            if i < list.len() && i != at {
                assert(after[i] == list[i]);
            }
        }
        if there < list.len() {
            assert(after[there] == list[there]);
            lemma_position(after, other, there);
        } else {
            lemma_position(after, other, after.len() as int);
        }
    }
}

/// Before the place of an identifier no entry is for it, and at its place,
/// if that is in the list, there is one.
pub proof fn lemma_position_bounds<R>(list: Seq<(UniqueId, R)>, id: UniqueId)
    ensures
        0 <= position(list, id) <= list.len(),
        forall|i: int| 0 <= i < position(list, id) ==> list[i].0 != id,
        position(list, id) < list.len() ==> list[position(list, id)].0 == id,
    decreases list.len(),
{
    if list.len() > 0 && list[0].0 != id {
        let rest = list.skip(1);
        lemma_position_bounds(rest, id);
        assert forall|i: int| 0 <= i < position(list, id) implies list[i].0 != id by {
            if i > 0 {
                assert(rest[i - 1] == list[i]);
            }
        }
        if position(list, id) < list.len() {
            assert(rest[position(rest, id)] == list[position(list, id)]);
        }
    }
}

/// Where the first entry for `id` stands in `list`, or its length.
pub fn find<R>(list: &Vec<(UniqueId, R)>, id: &UniqueId) -> (at: usize)
    ensures
        at == position(list@, *id),
        at <= list@.len(),
{
    let mut at: usize = 0;
    while at < list.len() && !(list[at].0 == *id)
        invariant
            at <= list@.len(),
            forall|i: int| 0 <= i < at ==> list@[i].0 != *id,
        decreases list@.len() - at,
    {
        at += 1;
    }
    proof {
        lemma_position(list@, *id, at as int);
    }
    at
}

/// Sets the record for `id` to `record`: in the place of the record it had,
/// or at the end where it had none.
pub fn set_record<R>(list: &mut Vec<(UniqueId, R)>, id: UniqueId, record: R)
    ensures
        final(list)@ == put(old(list)@, id, record),
{
    let at = find(list, &id);
    if at < list.len() {
        list[at] = (id, record);
    } else {
        list.push((id, record));
    }
}

/// The record that `list` holds for `id`, if it holds one.
pub fn lookup_record<'a, R>(list: &'a Vec<(UniqueId, R)>, id: &UniqueId) -> (found: Option<&'a R>)
    ensures
        found is Some <==> lookup(list@, *id) is Some,
        found matches Some(record) ==> Some(*record) == lookup(list@, *id),
{
    let at = find(list, id);
    if at < list.len() {
        Some(&list[at].1)
    } else {
        None
    }
}

} // verus!
