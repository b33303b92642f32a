//! A bounded single-index cursor over a list of rows.

use vstd::prelude::*;

verus! {

/// Cursor over `max` rows. `current` is the highlighted row, if any.
#[derive(Debug, Clone, Copy, PartialEq, Eq, Structural)]
pub struct SelectedState {
    pub max: usize,
    pub current: Option<usize>,
}

impl SelectedState {
    /// An empty list has no selection; a selection is always a row of the list.
    pub open spec fn wf(self) -> bool {
        &&& self.max == 0 ==> self.current is None
        &&& self.current matches Some(i) ==> i < self.max
    }

    pub open spec fn spec_set_max(self, max: usize) -> SelectedState {
        SelectedState {
            max,
            current: match self.current {
                Some(i) => if i < max {
                    Some(i)
                } else if max == 0 {
                    None
                } else {
                    Some((max - 1) as usize)
                },
                None => None,
            },
        }
    }

    pub open spec fn spec_next(self) -> SelectedState {
        match self.current {
            Some(i) => if i + 1 < self.max {
                SelectedState { current: Some((i + 1) as usize), ..self }
            } else {
                self
            },
            None => self,
        }
    }

    pub open spec fn spec_prev(self) -> SelectedState {
        match self.current {
            Some(i) => if i > 0 {
                SelectedState { current: Some((i - 1) as usize), ..self }
            } else {
                self
            },
            None => self,
        }
    }

    /// A cursor over `max` rows that starts on the first row, if there is one.
    pub open spec fn spec_fresh(max: usize) -> SelectedState {
        SelectedState { max, current: if max > 0 { Some(0) } else { None } }
    }

    pub fn new(max: usize) -> (r: SelectedState)
        ensures
            r == SelectedState::spec_fresh(max),
            r.wf(),
    {
        SelectedState { max, current: if max > 0 { Some(0) } else { None } }
    }

    /// Sets the number of rows and pulls the selection back inside them.
    pub fn set_max(&mut self, max: usize)
        ensures
            *final(self) == old(self).spec_set_max(max),
            old(self).wf() ==> final(self).wf(),
    {
        self.max = max;
        if let Some(i) = self.current {
            if i >= max {
                self.current = if max == 0 {
                    None
                } else {
                    Some(max - 1)
                };
            }
        }
    }

    /// Selects row `current` directly.
    pub fn set_current(&mut self, current: usize)
        requires
            current < old(self).max,
        ensures
            *final(self) == (SelectedState { current: Some(current), ..*old(self) }),
            final(self).wf(),
    {
        self.current = Some(current);
    }

    /// Moves one row down, stopping at the last row.
    pub fn next(&mut self)
        ensures
            *final(self) == old(self).spec_next(),
            old(self).wf() ==> final(self).wf(),
    {
        if let Some(i) = self.current {
            if i < self.max && i + 1 < self.max {
                self.current = Some(i + 1);
            }
        }
    }

    /// Moves one row up, stopping at the first row.
    pub fn prev(&mut self)
        ensures
            *final(self) == old(self).spec_prev(),
            old(self).wf() ==> final(self).wf(),
    {
        if let Some(i) = self.current {
            if i > 0 {
                self.current = Some(i - 1);
            }
        }
    }

    pub fn selected(&self) -> (r: Option<usize>)
        ensures
            r == self.current,
    {
        self.current
    }
}

impl Default for SelectedState {
    fn default() -> (r: SelectedState)
        ensures
            r == (SelectedState { max: 0, current: None }),
    {
        SelectedState { max: 0, current: None }
    }
}

/// The cursor after the moves in `moves`, first to last; `true` moves one row
/// down (`next`), `false` one row up (`prev`).
pub open spec fn after_moves(c: SelectedState, moves: Seq<bool>) -> SelectedState
    decreases moves.len(),
{
    if moves.len() == 0 {
        c
    } else {
        let d = after_moves(c, moves.drop_last());
        if moves.last() {
            d.spec_next()
        } else {
            d.spec_prev()
        }
    }
}

/// Any sequence of moves keeps the selection on a row of the list: over an
/// empty list there is never a selection, and over a non-empty one a selected
/// row stays selected and in range.
pub proof fn lemma_moves_stay_in_bounds(c: SelectedState, moves: Seq<bool>)
    requires
        c.wf(),
    ensures
        after_moves(c, moves).wf(),
        after_moves(c, moves).max == c.max,
        c.max == 0 ==> after_moves(c, moves).current is None,
        c.current is Some ==> after_moves(c, moves).current is Some,
    decreases moves.len(),
{
    if moves.len() > 0 {
        lemma_moves_stay_in_bounds(c, moves.drop_last());
    }
}

/// Setting the number of rows pulls a selection that falls outside back to the
/// last row, or drops it when there are no rows, and keeps any other selection.
pub proof fn lemma_set_max_clamps(c: SelectedState, n: usize)
    requires
        c.wf(),
    ensures
        c.spec_set_max(n).wf(),
        c.spec_set_max(n).max == n,
        c.current matches Some(i) && i >= n ==> c.spec_set_max(n).current == (if n == 0 {
            None
        } else {
            Some((n - 1) as usize)
        }),
        c.current matches Some(i) && i < n ==> c.spec_set_max(n).current == c.current,
        c.current is None ==> c.spec_set_max(n).current is None,
{
}

} // verus!
