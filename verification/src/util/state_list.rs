//! Selection movement over a list of items, with the same wrap-around rules
//! as tables.
use vstd::prelude::*;
use crate::util::state_table::{can_move, next_index, previous_index};

verus! {

/// Selected entry of a list (`None` when nothing is selected).
pub struct ListState {
    pub selected: Option<usize>,
}

impl Default for ListState {
    fn default() -> (r: ListState)
        ensures
            r.selected is None,
    {
        ListState { selected: None }
    }
}

impl ListState {
    pub fn selected(&self) -> (r: Option<usize>)
        ensures
            r == self.selected,
    {
        self.selected
    }

    pub fn select(&mut self, idx: Option<usize>)
        ensures
            final(self).selected == idx,
    {
        self.selected = idx;
    }
}

/// Selects the entry after the current one, wrapping to the first entry.
pub fn next<T>(state: &mut ListState, items: &[T])
    requires
        can_move(old(state).selected, items@.len()),
    ensures
        final(state).selected == Some(next_index(old(state).selected, items@.len())),
{
    let i: usize = match state.selected() {
        Some(i) => {
            if i >= items.len() - 1 {
                0
            } else {
                i + 1
            }
        },
        None => 0,
    };
    state.select(Some(i));
}

/// Selects the entry before the current one, wrapping to the last entry.
pub fn previous<T>(state: &mut ListState, items: &[T])
    requires
        can_move(old(state).selected, items@.len()),
    ensures
        final(state).selected == Some(previous_index(old(state).selected, items@.len())),
{
    let i: usize = match state.selected() {
        Some(i) => {
            if i == 0 {
                items.len() - 1
            } else {
                i - 1
            }
        },
        None => 0,
    };
    state.select(Some(i));
}

/// Clears the selection.
pub fn unselect(state: &mut ListState)
    ensures
        final(state).selected is None,
{
    state.select(None);
}

} // verus!
