//! Sets that are held for a time, on show.
use crate::components::widget::{children_of, is_box, is_label, Orientation, Widget};
use crate::formats::numerals::{nat_digits, padded_digits, push_nat, push_padded};
use crate::si::Second;
use crate::trax::repduration::{ActivityType, RepDurationRecord};
use vstd::prelude::*;
use vstd::string::StringExecFns;

verus! {

/// The decimals of a number of milliseconds as a fraction of a second, as
/// short as they can be: none for a whole second, else a point and one to
/// three digits, the last of them not a zero.
pub open spec fn fraction_text(millis: nat) -> Seq<char> {
    if millis == 0 {
        Seq::<char>::empty()
    } else if millis % 100 == 0 {
        seq!['.'] + padded_digits(millis / 100, 1)
    } else if millis % 10 == 0 {
        seq!['.'] + padded_digits(millis / 10, 2)
    } else {
        seq!['.'] + padded_digits(millis, 3)
    }
}

/// A span of time in seconds, with its unit: `60 s`, `45.5 s`, `0.125 s`.
pub open spec fn second_text(ms: nat) -> Seq<char> {
    nat_digits(ms / 1000) + fraction_text(ms % 1000) + seq![' ', 's']
}

/// The spans of the sets, written one after the other with a blank between.
pub open spec fn spans_text(sets: Seq<Second>) -> Seq<char>
    decreases sets.len(),
{
    if sets.len() == 0 {
        Seq::<char>::empty()
    } else if sets.len() == 1 {
        second_text(sets[0].units as nat)
    } else {
        spans_text(sets.drop_last()) + seq![' '] + second_text(sets.last().units as nat)
    }
}

/// Whether `widget` is the row that shows `record`: a horizontal box,
/// spaced by five, of the name of the exercise and the spans of the sets.
pub open spec fn rep_duration_row(widget: Widget, record: RepDurationRecord) -> bool {
    let children = children_of(widget);
    &&& is_box(widget, Orientation::Horizontal, 5)
    &&& children.len() == 2
    &&& is_label(children[0], record.activity.name_text())
    &&& is_label(children[1], spans_text(record.sets@))
}

/// Appends a span of time in seconds, with its unit.
pub fn push_second(out: &mut String, span: Second)
    ensures
        final(out)@ == old(out)@ + second_text(span.units as nat),
{
    let whole: u64 = span.units / 1000;
    let millis: u64 = span.units % 1000;
    proof {
        reveal_strlit(".");
        reveal_strlit(" s");
        assert("."@ =~= seq!['.']);
        assert(" s"@ =~= seq![' ', 's']);
    }
    push_nat(out, whole);
    let ghost front = out@;
    if millis != 0 {
        out.append(".");
        if millis % 100 == 0 {
            push_padded(out, millis / 100, 1);
        } else if millis % 10 == 0 {
            push_padded(out, millis / 10, 2);
        } else {
            push_padded(out, millis, 3);
        }
    }
    assert(out@ =~= front + fraction_text(millis as nat));
    out.append(" s");
    assert(final(out)@ =~= old(out)@ + second_text(span.units as nat));
}

/// The label of the exercise.
pub fn activity_c(activity: &ActivityType) -> (text: String)
    ensures
        text@ == activity.name_text(),
{
    String::from_str(activity.name())
}

/// The label of the sets: their spans with a blank between.
pub fn sets_c(sets: &Vec<Second>) -> (text: String)
    ensures
        text@ == spans_text(sets@),
{
    let mut out = String::new();
    let mut i: usize = 0;
    proof {
        reveal_strlit(" ");
        assert(sets@.take(0) =~= Seq::<Second>::empty());
    }
    while i < sets.len()
        invariant
            i <= sets@.len(),
            out@ == spans_text(sets@.take(i as int)),
            " "@ == seq![' '],
        decreases sets@.len() - i,
    {
        if i > 0 {
            out.append(" ");
        }
        push_second(&mut out, sets[i]);
        proof {
            let next = sets@.take(i + 1);
            assert(next.drop_last() =~= sets@.take(i as int));
            assert(next.last() == sets@[i as int]);
            if i == 0 {
                assert(out@ =~= second_text(sets@[0].units as nat));
            }
        }
        i += 1;
    }
    assert(sets@.take(sets@.len() as int) =~= sets@);
    out
}

/// The row that shows a record of sets that were held for a time.
pub fn rep_duration_c(record: &RepDurationRecord) -> (row: Widget)
    ensures
        rep_duration_row(row, *record),
{
    let mut children: Vec<Widget> = Vec::new();
    children.push(Widget::Label(activity_c(&record.activity)));
    children.push(Widget::Label(sets_c(&record.sets)));
    Widget::Box { orientation: Orientation::Horizontal, spacing: 5, children }
}

} // verus!
