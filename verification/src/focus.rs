//! Grid-based focus model for cursor-key navigation.
//!
//! The user interface is laid out as rows of controls: the frequency slider,
//! the volume slider and the row of waveform buttons. A `FocusPosition` names
//! one cell of that grid.
use vstd::prelude::*;

verus! {

/// A cell of the focus grid.
#[derive(Debug, Clone, Copy, PartialEq, Eq, Structural)]
pub struct FocusPosition {
    pub row: usize,
    pub col: usize,
}

/// `n - 1`, but never below zero.
pub open spec fn dec_floor(n: usize) -> usize {
    if n == 0 {
        0
    } else {
        (n - 1) as usize
    }
}

/// `n + 1`, but never above `max`.
pub open spec fn inc_capped(n: usize, max: usize) -> usize {
    if n + 1 <= max {
        (n + 1) as usize
    } else {
        max
    }
}

impl FocusPosition {
    /// The position one row up, clamped at row 0.
    pub open spec fn spec_up(self) -> FocusPosition {
        FocusPosition { row: dec_floor(self.row), col: self.col }
    }

    /// The position one row down, clamped at `max_row`.
    pub open spec fn spec_down(self, max_row: usize) -> FocusPosition {
        FocusPosition { row: inc_capped(self.row, max_row), col: self.col }
    }

    /// The position one column left, clamped at column 0.
    pub open spec fn spec_left(self) -> FocusPosition {
        FocusPosition { row: self.row, col: dec_floor(self.col) }
    }

    /// The position one column right, clamped at `max_col`.
    pub open spec fn spec_right(self, max_col: usize) -> FocusPosition {
        FocusPosition { row: self.row, col: inc_capped(self.col, max_col) }
    }

    /// Create a new focus position at (row, col).
    pub fn new(row: usize, col: usize) -> (r: Self)
        ensures
            r.row == row,
            r.col == col,
    {
        FocusPosition { row, col }
    }

    /// Move focus up one row, clamping to 0.
    pub fn move_up(&self) -> (r: Self)
        ensures
            r == self.spec_up(),
    {
        FocusPosition { row: self.row.saturating_sub(1), col: self.col }
    }

    /// Move focus down one row, clamping to `max_row`.
    pub fn move_down(&self, max_row: usize) -> (r: Self)
        requires
            self.row < usize::MAX,
        ensures
            r == self.spec_down(max_row),
    {
        let next = self.row + 1;
        let row = if next <= max_row {
            next
        } else {
            max_row
        };
        FocusPosition { row, col: self.col }
    }

    /// Move focus left one column, clamping to 0.
    pub fn move_left(&self) -> (r: Self)
        ensures
            r == self.spec_left(),
    {
        FocusPosition { row: self.row, col: self.col.saturating_sub(1) }
    }

    /// Move focus right one column, clamping to `max_col` for this row.
    pub fn move_right(&self, max_col: usize) -> (r: Self)
        requires
            self.col < usize::MAX,
        ensures
            r == self.spec_right(max_col),
    {
        let next = self.col + 1;
        let col = if next <= max_col {
            next
        } else {
            max_col
        };
        FocusPosition { row: self.row, col }
    }

    /// Check if focus is on a slider row (row 0 or 1).
    pub fn is_on_slider(&self) -> (r: bool)
        ensures
            r == (self.row == 0 || self.row == 1),
    {
        self.row == 0 || self.row == 1
    }

    /// Check if focus is on the waveform buttons (row 2).
    pub fn is_on_waveform(&self) -> (r: bool)
        ensures
            r == (self.row == 2),
    {
        self.row == 2
    }
}

/// Moving down and then up again returns to the start, away from the bottom edge.
pub proof fn lemma_down_then_up(p: FocusPosition, max_row: usize)
    requires
        p.row < max_row,
    ensures
        p.spec_down(max_row).spec_up() == p,
{
}

/// Moving up and then down again returns to the start, away from the top edge.
pub proof fn lemma_up_then_down(p: FocusPosition, max_row: usize)
    requires
        0 < p.row <= max_row,
    ensures
        p.spec_up().spec_down(max_row) == p,
{
}

/// Moving right and then left again returns to the start, away from the right edge.
pub proof fn lemma_right_then_left(p: FocusPosition, max_col: usize)
    requires
        p.col < max_col,
    ensures
        p.spec_right(max_col).spec_left() == p,
{
}

/// Moving left and then right again returns to the start, away from the left edge.
pub proof fn lemma_left_then_right(p: FocusPosition, max_col: usize)
    requires
        0 < p.col <= max_col,
    ensures
        p.spec_left().spec_right(max_col) == p,
{
}

/// Vertical moves keep the column, horizontal moves keep the row, and a
/// position inside the grid stays inside it.
pub proof fn lemma_moves_stay_in_grid(p: FocusPosition, max_row: usize, max_col: usize)
    requires
        p.row <= max_row,
        p.col <= max_col,
    ensures
        p.spec_up().col == p.col && p.spec_up().row <= max_row,
        p.spec_down(max_row).col == p.col && p.spec_down(max_row).row <= max_row,
        p.spec_left().row == p.row && p.spec_left().col <= max_col,
        p.spec_right(max_col).row == p.row && p.spec_right(max_col).col <= max_col,
{
}

} // verus!
