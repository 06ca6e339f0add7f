//! Selection cursors for the lists and tables of the interface.
//!
//! Every navigable region (the playlist sidebar, each search-result table,
//! the open playlist page) owns one cursor: an optional selected index, the
//! number of rows it may range over, and an `active` flag that gates whether
//! vertical-navigation keys are routed to it. A selected index, when present,
//! is always below the length bound; navigation wraps around modulo that
//! bound.

use vstd::prelude::*;

verus! {

/// Shared navigation behaviour of every list/table cursor: move the
/// selection down or up with wrap-around, and toggle whether the cursor
/// receives navigation keys.
pub trait Navigable {
    spec fn nav_len(&self) -> nat;

    spec fn nav_selected(&self) -> Option<usize>;

    spec fn nav_active(&self) -> bool;

    fn next(&mut self)
        ensures
            final(self).nav_len() == old(self).nav_len(),
            final(self).nav_active() == old(self).nav_active(),
            final(self).nav_selected() == spec_next_selection(
                old(self).nav_selected(),
                old(self).nav_len(),
            ),
    ;

    fn previous(&mut self)
        ensures
            final(self).nav_len() == old(self).nav_len(),
            final(self).nav_active() == old(self).nav_active(),
            final(self).nav_selected() == spec_previous_selection(
                old(self).nav_selected(),
                old(self).nav_len(),
            ),
    ;

    fn set_active(&mut self, active: bool)
        ensures
            final(self).nav_len() == old(self).nav_len(),
            final(self).nav_selected() == old(self).nav_selected(),
            final(self).nav_active() == active,
    ;
}

/// Where the selection lands after a downward step: one row further, back to
/// the first row past the end, on the first row when nothing was selected,
/// and absent while there are no rows at all.
pub open spec fn spec_next_selection(selected: Option<usize>, len: nat) -> Option<usize> {
    if len == 0 {
        None
    } else {
        match selected {
            None => Some(0usize),
            Some(i) => if i + 1 < len {
                Some((i + 1) as usize)
            } else {
                Some(0usize)
            },
        }
    }
}

/// Where the selection lands after an upward step: one row back, around to
/// the last row from the first, on the first row when nothing was selected,
/// and absent while there are no rows at all.
pub open spec fn spec_previous_selection(selected: Option<usize>, len: nat) -> Option<usize> {
    if len == 0 {
        None
    } else {
        match selected {
            None => Some(0usize),
            Some(i) => if i == 0 {
                Some((len - 1) as usize)
            } else {
                Some((i - 1) as usize)
            },
        }
    }
}

/// Selection cursor of one table: the selected row, the number of rows, and
/// whether the cursor currently receives vertical-navigation keys.
pub struct TableStateExt {
    pub selected: Option<usize>,
    pub max_size: usize,
    pub active: bool,
}

impl TableStateExt {
    /// The selected index, when present, stays below the length bound.
    pub open spec fn wf(&self) -> bool {
        match self.selected {
            Some(i) => i < self.max_size,
            None => true,
        }
    }

    /// A fresh cursor over `max_size` rows: the first row is selected when
    /// there is one, and the cursor starts inactive.
    pub fn new(max_size: usize) -> (r: TableStateExt)
        ensures
            r.wf(),
            r.max_size == max_size,
            r.active == false,
            r.selected == (if max_size > 0 { Some(0usize) } else { None::<usize> }),
    {
        TableStateExt {
            selected: if max_size > 0 { Some(0) } else { None },
            max_size,
            active: false,
        }
    }
}

impl Navigable for TableStateExt {
    open spec fn nav_len(&self) -> nat {
        self.max_size as nat
    }

    open spec fn nav_selected(&self) -> Option<usize> {
        self.selected
    }

    open spec fn nav_active(&self) -> bool {
        self.active
    }

    fn next(&mut self)
        ensures
            old(self).wf() ==> final(self).wf(),
    {
        if self.max_size == 0 {
            self.selected = None;
            return;
        }
        let i: usize = match self.selected {
            None => 0,
            Some(i) => {
                if i < self.max_size - 1 {
                    i + 1
                } else {
                    0
                }
            },
        };
        self.selected = Some(i);
    }

    fn previous(&mut self)
        ensures
            old(self).wf() ==> final(self).wf(),
    {
        if self.max_size == 0 {
            self.selected = None;
            return;
        }
        let i: usize = match self.selected {
            None => 0,
            Some(i) => {
                if i == 0 {
                    self.max_size - 1
                } else {
                    i - 1
                }
            },
        };
        self.selected = Some(i);
    }

    fn set_active(&mut self, active: bool)
        ensures
            final(self).max_size == old(self).max_size,
            final(self).selected == old(self).selected,
    {
        self.active = active;
    }
}

/// The selection after `n` repetitions of one downward step followed by one
/// upward step.
pub open spec fn spec_round_trips(selected: Option<usize>, len: nat, n: nat) -> Option<usize>
    decreases n,
{
    if n == 0 {
        selected
    } else {
        spec_round_trips(
            spec_previous_selection(spec_next_selection(selected, len), len),
            len,
            (n - 1) as nat,
        )
    }
}

/// One downward step followed by one upward step lands back on the starting
/// row, for any selection in range of a non-empty table.
pub proof fn lemma_next_previous_round_trip(selected: Option<usize>, len: nat)
    requires
        0 < len <= usize::MAX,
        selected matches Some(i) ==> i < len,
    ensures
        selected matches Some(i) ==> spec_previous_selection(
            spec_next_selection(selected, len),
            len,
        ) == selected,
{
    if let Some(i) = selected {
        if i + 1 < len {
            assert(spec_next_selection(selected, len) == Some((i + 1) as usize));
            assert(spec_previous_selection(Some((i + 1) as usize), len) == Some(i));
        } else {
            assert(i == len - 1);
            assert(spec_next_selection(selected, len) == Some(0usize));
            assert(spec_previous_selection(Some(0usize), len) == Some((len - 1) as usize));
        }
    }
}

/// Repeating the down-then-up pair any number of times—in particular the
/// table's own length—returns to the original index: wrap-around is exact.
pub proof fn lemma_next_previous_n_times(selected: Option<usize>, len: nat, n: nat)
    requires
        0 < len <= usize::MAX,
        selected matches Some(i) ==> i < len,
    ensures
        selected matches Some(i) ==> spec_round_trips(selected, len, n) == selected,
    decreases n,
{
    if n > 0 {
        lemma_next_previous_round_trip(selected, len);
        lemma_next_previous_n_times(selected, len, (n - 1) as nat);
    }
}

} // verus!
