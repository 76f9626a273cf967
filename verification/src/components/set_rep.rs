//! Sets of repetitions on show.
use crate::components::widget::{children_of, is_box, is_label, Orientation, Widget};
use crate::formats::numerals::{nat_digits, push_nat};
use crate::trax::setrep::{ActivityType, SetRepRecord};
use vstd::prelude::*;
use vstd::string::StringExecFns;

verus! {

/// The counts of the sets, written one after the other with a blank between.
pub open spec fn sets_text(sets: Seq<u32>) -> Seq<char>
    decreases sets.len(),
{
    if sets.len() == 0 {
        Seq::<char>::empty()
    } else if sets.len() == 1 {
        nat_digits(sets[0] as nat)
    } else {
        sets_text(sets.drop_last()) + seq![' '] + nat_digits(sets.last() as nat)
    }
}

/// The label of the exercise.
pub fn activity_c(activity: &ActivityType) -> (text: String)
    ensures
        text@ == activity.name_text(),
{
    String::from_str(activity.name())
}

/// The label of the sets: their counts with a blank between.
pub fn sets_c(sets: &Vec<u32>) -> (text: String)
    ensures
        text@ == sets_text(sets@),
{
    let mut out = String::new();
    let mut i: usize = 0;
    proof {
        reveal_strlit(" ");
        assert(sets@.take(0) =~= Seq::<u32>::empty());
    }
    while i < sets.len()
        invariant
            i <= sets@.len(),
            out@ == sets_text(sets@.take(i as int)),
            " "@ == seq![' '],
        decreases sets@.len() - i,
    {
        if i > 0 {
            out.append(" ");
        }
        push_nat(&mut out, sets[i] as u64);
        proof {
            let next = sets@.take(i + 1);
            assert(next.drop_last() =~= sets@.take(i as int));
            assert(next.last() == sets@[i as int]);
            if i == 0 {
                assert(out@ =~= nat_digits(sets@[0] as nat));
            }
        }
        i += 1;
    }
    assert(sets@.take(sets@.len() as int) =~= sets@);
    out
}

/// Whether `widget` is the row that shows `record`: a horizontal box,
/// spaced by five, of the name of the exercise and the counts of the sets.
pub open spec fn set_rep_row(widget: Widget, record: SetRepRecord) -> bool {
    let children = children_of(widget);
    &&& is_box(widget, Orientation::Horizontal, 5)
    &&& children.len() == 2
    &&& is_label(children[0], record.activity.name_text())
    &&& is_label(children[1], sets_text(record.sets@))
}

/// The row that shows a record of sets of repetitions.
pub fn set_rep_c(record: &SetRepRecord) -> (row: Widget)
    ensures
        set_rep_row(row, *record),
{
    let mut children: Vec<Widget> = Vec::new();
    children.push(Widget::Label(activity_c(&record.activity)));
    children.push(Widget::Label(sets_c(&record.sets)));
    Widget::Box { orientation: Orientation::Horizontal, spacing: 5, children }
}

} // verus!
