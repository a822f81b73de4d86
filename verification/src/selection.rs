//! A list selection: an optional index into a displayed sequence of a known
//! length. The same four operations drive every list view of the dashboard.

use vstd::prelude::*;

verus! {

/// The cursor of one list view: either no row is selected, or the row at
/// `selected`. Every operation takes the current displayed length and keeps
/// the index inside `[0, len)` whenever the list is non-empty.
#[derive(Clone, Copy, Debug, PartialEq, Eq, Structural)]
pub struct ListSelection {
    pub selected: Option<usize>,
}

/// An index that is either absent or strictly inside the list.
pub open spec fn sel_in_bounds(sel: Option<usize>, len: usize) -> bool {
    match sel {
        Option::None => true,
        Option::Some(i) => i < len,
    }
}

/// What `select_first_if_any` yields: clear on an empty list, select the
/// first row when nothing was selected, otherwise leave the cursor alone.
pub open spec fn spec_select_first_if_any(sel: Option<usize>, len: usize) -> Option<usize> {
    if len == 0 {
        Option::None
    } else if sel is None {
        Option::Some(0usize)
    } else {
        sel
    }
}

/// What `select_next_in_state` yields: one row down, clamped to the end.
pub open spec fn spec_select_next(sel: Option<usize>, len: usize) -> Option<usize> {
    if len == 0 {
        Option::None
    } else {
        match sel {
            Option::None => Option::Some(0usize),
            Option::Some(i) => if i + 1 < len {
                Option::Some((i + 1) as usize)
            } else {
                Option::Some((len - 1) as usize)
            },
        }
    }
}

/// What `select_prev_in_state` yields: one row up, stopping at the top.
pub open spec fn spec_select_prev(sel: Option<usize>, len: usize) -> Option<usize> {
    if len == 0 {
        Option::None
    } else {
        match sel {
            Option::None => Option::Some(0usize),
            Option::Some(i) => if i > 0 {
                Option::Some((i - 1) as usize)
            } else {
                Option::Some(0usize)
            },
        }
    }
}

/// What `clamp_selected` yields: pull an out-of-range index back to the last
/// row, clear on an empty list.
pub open spec fn spec_clamp(sel: Option<usize>, len: usize) -> Option<usize> {
    if len == 0 {
        Option::None
    } else {
        let i = match sel {
            Option::None => 0,
            Option::Some(i) => i as int,
        };
        if i < len {
            Option::Some(i as usize)
        } else {
            Option::Some((len - 1) as usize)
        }
    }
}

impl ListSelection {
    pub fn new() -> (r: ListSelection)
        ensures
            r.selected is None,
    {
        ListSelection { selected: Option::None }
    }

    pub fn selected(&self) -> (r: Option<usize>)
        ensures
            r == self.selected,
    {
        self.selected
    }
}

/// Select row 0 when the list is non-empty and nothing was selected; clear
/// the cursor when the list is empty; otherwise change nothing.
pub fn select_first_if_any(state: &mut ListSelection, len: usize)
    ensures
        final(state).selected == spec_select_first_if_any(old(state).selected, len),
{
    if len == 0 {
        state.selected = Option::None;
    } else if state.selected.is_none() {
        state.selected = Option::Some(0);
    }
}

/// Move the cursor one row down, clamped to the last row.
pub fn select_next_in_state(state: &mut ListSelection, len: usize)
    ensures
        final(state).selected == spec_select_next(old(state).selected, len),
        sel_in_bounds(final(state).selected, len),
{
    if len == 0 {
        state.selected = Option::None;
        return;
    }
    let i: usize = match state.selected {
        Option::Some(i) => if i < len - 1 {
            i + 1
        } else {
            len - 1
        },
        Option::None => 0,
    };
    state.selected = Option::Some(i);
}

/// Move the cursor one row up, stopping at the first row.
pub fn select_prev_in_state(state: &mut ListSelection, len: usize)
    ensures
        final(state).selected == spec_select_prev(old(state).selected, len),
        sel_in_bounds(old(state).selected, len) ==> sel_in_bounds(final(state).selected, len),
{
    if len == 0 {
        state.selected = Option::None;
        return;
    }
    let i: usize = match state.selected {
        Option::Some(i) => if i > 0 {
            i - 1
        } else {
            0
        },
        Option::None => 0,
    };
    state.selected = Option::Some(i);
}

/// Pull an out-of-range cursor back inside the list; clear it when the list
/// is empty.
pub fn clamp_selected(state: &mut ListSelection, len: usize)
    ensures
        final(state).selected == spec_clamp(old(state).selected, len),
        sel_in_bounds(final(state).selected, len),
{
    if len == 0 {
        state.selected = Option::None;
        return;
    }
    let i: usize = match state.selected {
        Option::Some(i) => i,
        Option::None => 0,
    };
    let i = if i < len {
        i
    } else {
        len - 1
    };
    state.selected = Option::Some(i);
}

/// Moving down and then up again never leaves the list: from any in-bounds
/// cursor on a non-empty list, the result is in bounds and at most one row
/// above the starting point (exactly the starting row whenever the cursor
/// was not already on the last row).
pub proof fn lemma_next_then_prev_stays_near(sel: Option<usize>, len: usize)
    requires
        len > 0,
        sel_in_bounds(sel, len),
    ensures
        sel_in_bounds(spec_select_prev(spec_select_next(sel, len), len), len),
        match (sel, spec_select_prev(spec_select_next(sel, len), len)) {
            (Option::Some(i), Option::Some(j)) => i <= j + 1 && j <= i + 1 && j < len,
            (Option::None, Option::Some(j)) => j == 0,
            _ => false,
        },
{
}

/// Clamping after a length change never leaves a cursor at or past the new
/// length: on a non-empty list the result is a valid row, on an empty list
/// it is cleared.
pub proof fn lemma_clamp_in_bounds(sel: Option<usize>, len: usize)
    ensures
        sel_in_bounds(spec_clamp(sel, len), len),
        len == 0 ==> spec_clamp(sel, len) is None,
        len > 0 ==> spec_clamp(sel, len) is Some,
{
}

} // verus!
