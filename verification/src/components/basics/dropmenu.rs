//! A menu from which one option is chosen.
use crate::strings::same_text;
use vstd::prelude::*;
use vstd::string::StringExecFns;

verus! {

/// The options of a menu: for each its identifier and what the menu shows.
pub struct MenuOptions<'a, Val>(pub Vec<(&'a str, Val)>);

/// A menu: its options, which of them is chosen, and whom to tell when
/// another is.
pub struct Menu<F> {
    /// The identifier of each option.
    pub ids: Vec<String>,
    /// What the menu shows for each option.
    pub labels: Vec<String>,
    /// Which option is chosen, if any.
    pub active: Option<usize>,
    pub on_changed: F,
}

/// Whether `active` is the first of `ids` that equals `current`, or `None`
/// where none does.
pub open spec fn first_match(ids: Seq<String>, current: Seq<char>, active: Option<usize>) -> bool {
    match active {
        Some(k) => k < ids.len() && ids[k as int]@ == current && forall|j: int|
            0 <= j < k ==> ids[j]@ != current,
        None => forall|j: int| 0 <= j < ids.len() ==> ids[j]@ != current,
    }
}

/// A menu of `options` on which the option with identifier `current` is
/// chosen (the first, if several have it; none, if none has it), and which
/// calls `on_changed` with the identifier of each option chosen later.
pub fn dropmenu_c<F: Fn(&str)>(options: MenuOptions<&str>, current: &str, on_changed: F) -> (menu:
    Menu<F>)
    ensures
        menu.ids@.len() == options.0@.len(),
        menu.labels@.len() == options.0@.len(),
        forall|i: int|
            0 <= i < options.0@.len() ==> menu.ids@[i]@ == options.0@[i].0@ && menu.labels@[i]@
                == options.0@[i].1@,
        first_match(menu.ids@, current@, menu.active),
        menu.on_changed == on_changed,
{
    let MenuOptions(options) = options;
    let mut ids: Vec<String> = Vec::new();
    let mut labels: Vec<String> = Vec::new();
    let mut active: Option<usize> = None;
    let mut i: usize = 0;
    while i < options.len()
        invariant
            i <= options@.len(),
            ids@.len() == i,
            labels@.len() == i,
            forall|j: int|
                0 <= j < i ==> ids@[j]@ == options@[j].0@ && labels@[j]@ == options@[j].1@,
            first_match(ids@, current@, active),
        decreases options@.len() - i,
    {
        let (id, label) = options[i];
        if active.is_none() && same_text(id, current) {
            active = Some(i);
        }
        ids.push(String::from_str(id));
        labels.push(String::from_str(label));
        i += 1;
    }
    Menu { ids, labels, active, on_changed }
}

impl<F: Fn(&str)> Menu<F> {
    /// The user has chosen the option at `index`: it is the chosen one from
    /// now on, and the callback has been called with its identifier.
    pub fn select(&mut self, index: usize)
        requires
            index < old(self).ids@.len(),
            forall|id: &str| call_requires(old(self).on_changed, (id,)),
        ensures
            final(self).active == Some(index),
            final(self).ids == old(self).ids,
            final(self).labels == old(self).labels,
            final(self).on_changed == old(self).on_changed,
            exists|id: &str|
                id@ == old(self).ids@[index as int]@ && call_ensures(
                    old(self).on_changed,
                    (id,),
                    (),
                ),
    {
        self.active = Some(index);
        let id = self.ids[index].as_str();
        (self.on_changed)(id);
    }

    /// The identifier of the option that is chosen, if one is.
    pub fn active_id(&self) -> (id: Option<&str>)
        requires
            self.active matches Some(k) ==> k < self.ids@.len(),
        ensures
            id is Some <==> self.active is Some,
            id matches Some(text) ==> text@ == self.ids@[self.active->0 as int]@,
    {
        match self.active {
            Some(k) => Some(self.ids[k].as_str()),
            None => None,
        }
    }
}

} // verus!
