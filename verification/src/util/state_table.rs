//! Selection movement over a table of items.
//!
//! A `TableState` records which row of a table is selected, if any.  Moving
//! forward from the last row wraps to the first one and moving backward from
//! the first row wraps to the last one.
use vstd::prelude::*;

verus! {

/// Selected row of a table (`None` when nothing is selected).
pub struct TableState {
    pub selected: Option<usize>,
}

impl Default for TableState {
    fn default() -> (r: TableState)
        ensures
            r.selected is None,
    {
        TableState { selected: None }
    }
}

impl TableState {
    pub fn selected(&self) -> (r: Option<usize>)
        ensures
            r == self.selected,
    {
        self.selected
    }

    pub fn select(&mut self, idx: Option<usize>)
        ensures
            final(self).selected == idx,
    {
        self.selected = idx;
    }
}

/// Index selected after moving forward over `len` rows from `sel`.
pub open spec fn next_index(sel: Option<usize>, len: nat) -> usize {
    match sel {
        Some(i) => if i >= len - 1 { 0 } else { (i + 1) as usize },
        None => 0,
    }
}

/// Index selected after moving backward over `len` rows from `sel`.
pub open spec fn previous_index(sel: Option<usize>, len: nat) -> usize {
    match sel {
        Some(i) => if i == 0 { (len - 1) as usize } else { (i - 1) as usize },
        None => 0,
    }
}

/// Moving forward never fails once a row is selected in a non-empty table.
pub open spec fn can_move(sel: Option<usize>, len: nat) -> bool {
    sel is Some ==> len > 0
}

fn next_of(sel: Option<usize>, len: usize) -> (r: usize)
    requires
        can_move(sel, len as nat),
    ensures
        r == next_index(sel, len as nat),
{
    match sel {
        Some(i) => if i >= len - 1 { 0 } else { i + 1 },
        None => 0,
    }
}

fn previous_of(sel: Option<usize>, len: usize) -> (r: usize)
    requires
        can_move(sel, len as nat),
    ensures
        r == previous_index(sel, len as nat),
{
    match sel {
        Some(i) => if i == 0 { len - 1 } else { i - 1 },
        None => 0,
    }
}

/// Selects the row after the current one, wrapping to the first row.
pub fn next<T>(state: &mut TableState, items: &Vec<T>)
    requires
        can_move(old(state).selected, items@.len()),
    ensures
        final(state).selected == Some(next_index(old(state).selected, items@.len())),
{
    let i = next_of(state.selected(), items.len());
    state.select(Some(i));
}

/// A fresh state whose selection is the row after the one of `state`.
pub fn with_next<T>(state: &TableState, items: &Vec<T>) -> (r: TableState)
    requires
        can_move(state.selected, items@.len()),
    ensures
        r.selected == Some(next_index(state.selected, items@.len())),
{
    let i = next_of(state.selected(), items.len());
    let mut s = TableState::default();
    s.select(Some(i));
    s
}

/// A fresh state whose selection is the row before the one of `state`.
pub fn with_previous<T>(state: &TableState, items: &Vec<T>) -> (r: TableState)
    requires
        can_move(state.selected, items@.len()),
    ensures
        r.selected == Some(previous_index(state.selected, items@.len())),
{
    let i = previous_of(state.selected(), items.len());
    let mut s = TableState::default();
    s.select(Some(i));
    s
}

/// Whether moving forward from the selection would wrap to the first row.
/// The distance to the next row is computed as a 32-bit signed value, so an
/// index whose successor is a multiple of 2^32 also counts as the last row.
pub open spec fn is_last(sel: Option<usize>, len: nat) -> bool {
    match sel {
        Some(x) => x >= len - 1 || ((x + 1) as i32) == 0,
        None => false,
    }
}

pub fn is_last_element<T>(state: &TableState, items: &Vec<T>) -> (r: bool)
    requires
        can_move(state.selected, items@.len()),
    ensures
        r == is_last(state.selected, items@.len()),
{
    let i: i32 = match state.selected() {
        Some(x) => {
            if x >= items.len() - 1 {
                0
            } else {
                (x + 1) as i32
            }
        },
        None => -1,
    };
    i == 0
}

/// Selects the row before the current one, wrapping to the last row.
pub fn previous<T>(state: &mut TableState, items: &Vec<T>)
    requires
        can_move(old(state).selected, items@.len()),
    ensures
        final(state).selected == Some(previous_index(old(state).selected, items@.len())),
{
    let i = previous_of(state.selected(), items.len());
    state.select(Some(i));
}

/// Clears the selection.
pub fn unselect(state: &mut TableState)
    ensures
        final(state).selected is None,
{
    state.select(None);
}

/// Moving forward from a row of a non-empty table lands on a row of the table.
pub proof fn lemma_next_in_range(sel: Option<usize>, len: nat)
    requires
        len > 0,
        len <= usize::MAX,
        sel matches Some(i) ==> i < len,
    ensures
        next_index(sel, len) < len,
        previous_index(sel, len) < len,
{
}

/// Moving backward undoes moving forward, and moving forward undoes moving
/// backward, for every row of a non-empty table.
pub proof fn lemma_next_previous_inverse(i: usize, len: nat)
    requires
        i < len,
        len <= usize::MAX,
    ensures
        previous_index(Some(next_index(Some(i), len)), len) == i,
        next_index(Some(previous_index(Some(i), len)), len) == i,
{
}

} // verus!
