//! Selection bookkeeping for list screens: an optional index over a
//! variable-length collection, with wrap-around next/previous movement.

use vstd::prelude::*;

verus! {

/// What the next-item movement yields: on an empty list there is no
/// selection; with no prior selection movement initializes to index 0;
/// from the last index it wraps to 0; otherwise it steps forward.
pub open spec fn next_selection(sel: Option<usize>, len: int) -> Option<usize> {
    if len == 0 {
        None
    } else {
        match sel {
            Some(i) => if i + 1 >= len {
                Some(0usize)
            } else {
                Some((i + 1) as usize)
            },
            None => Some(0usize),
        }
    }
}

/// What the previous-item movement yields: on an empty list there is no
/// selection; with no prior selection movement initializes to index 0;
/// from index 0 it wraps to the last index; otherwise it steps back.
pub open spec fn previous_selection(sel: Option<usize>, len: int) -> Option<usize> {
    if len == 0 {
        None
    } else {
        match sel {
            Some(i) => if i == 0 {
                Some((len - 1) as usize)
            } else {
                Some((i - 1) as usize)
            },
            None => Some(0usize),
        }
    }
}

/// The selection invariant over a collection of length `len`: a non-empty
/// collection always has a selected index below its length, an empty one
/// has none.
pub open spec fn selection_wf(sel: Option<usize>, len: int) -> bool {
    if len == 0 {
        sel is None
    } else {
        sel matches Some(i) && i < len
    }
}

/// Tracks the selected index of one list screen.
pub struct SelectionState {
    pub selected: Option<usize>,
}

impl SelectionState {
    /// A fresh state with nothing selected.
    pub fn new() -> (s: Self)
        ensures
            s.selected is None,
    {
        SelectionState { selected: None }
    }

    /// The currently selected index, if any.
    pub fn selected(&self) -> (r: Option<usize>)
        ensures
            r == self.selected,
    {
        self.selected
    }

    /// Replaces the selection outright (used when a collection is
    /// freshly loaded).
    pub fn select(&mut self, sel: Option<usize>)
        ensures
            final(self).selected == sel,
    {
        self.selected = sel;
    }

    /// Moves the selection forward over a collection of length `length`,
    /// wrapping from the last index to 0.
    pub fn select_next(&mut self, length: usize)
        ensures
            final(self).selected == next_selection(old(self).selected, length as int),
    {
        if length == 0 {
            self.selected = None;
        } else {
            let next: usize = match self.selected {
                Some(i) => if i >= length - 1 {
                    0
                } else {
                    i + 1
                },
                None => 0,
            };
            self.selected = Some(next);
        }
    }

    /// Moves the selection backward over a collection of length `length`,
    /// wrapping from index 0 to the last index.
    pub fn select_previous(&mut self, length: usize)
        ensures
            final(self).selected == previous_selection(old(self).selected, length as int),
    {
        if length == 0 {
            self.selected = None;
        } else {
            let prev: usize = match self.selected {
                Some(i) => if i == 0 {
                    length - 1
                } else {
                    i - 1
                },
                None => 0,
            };
            self.selected = Some(prev);
        }
    }
}

/// Law: over a non-empty collection, moving next then previous (or
/// previous then next) from any in-range index returns to that index;
/// at the wrap boundary, next from the last index yields 0 and previous
/// from 0 yields the last index.
pub proof fn lemma_selection_round_trip(i: usize, len: usize)
    requires
        0 < len,
        (i as int) < (len as int),
    ensures
        previous_selection(next_selection(Some(i), len as int), len as int) == Some(i),
        next_selection(previous_selection(Some(i), len as int), len as int) == Some(i),
        i == len - 1 ==> next_selection(Some(i), len as int) == Some(0usize),
        i == 0 ==> previous_selection(Some(i), len as int) == Some((len - 1) as usize),
{
}

/// Law: over an empty collection, movement in either direction yields no
/// selection, whatever was selected before.
pub proof fn lemma_selection_empty(sel: Option<usize>)
    ensures
        next_selection(sel, 0) is None,
        previous_selection(sel, 0) is None,
{
}

/// Law: movement preserves the selection invariant.
pub proof fn lemma_selection_preserves_wf(sel: Option<usize>, len: int)
    requires
        selection_wf(sel, len),
    ensures
        selection_wf(next_selection(sel, len), len),
        selection_wf(previous_selection(sel, len), len),
{
}

} // verus!
