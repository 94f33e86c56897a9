//! The raw scan grid: one boolean per switch of the matrix.

use vstd::prelude::*;
use crate::keys::COLUMNS;
use crate::keys::KEY_COUNT;
use crate::keys::ROWS;

verus! {

/// The raw scan grid, one entry per `(row, column)` intersection of the key
/// matrix.  `true` means the switch is currently closed.  The grid holds no
/// history: a fresh one is built on every scan cycle.
///
/// Cells are stored row-major; the view is the flattened sequence, so cell
/// `(row, col)` is entry `row * COLUMNS + col`.
pub struct ScanGrid {
    cells: Vec<bool>,
}

impl View for ScanGrid {
    type V = Seq<bool>;

    closed spec fn view(&self) -> Seq<bool> {
        self.cells@
    }
}

impl ScanGrid {
    /// A grid is well formed when it holds exactly one cell per switch.
    pub open spec fn wf(&self) -> bool {
        self@.len() == KEY_COUNT
    }

    /// The state of the switch at `(row, col)`.
    pub open spec fn at(&self, row: int, col: int) -> bool {
        self@[row * COLUMNS + col]
    }

    /// Creates a grid with every switch open.
    pub fn new() -> (grid: ScanGrid)
        ensures
            grid.wf(),
            forall|i: int| 0 <= i < KEY_COUNT ==> !grid@[i],
    {
        let mut cells: Vec<bool> = Vec::new();
        let mut i: usize = 0;
        while i < KEY_COUNT
            invariant
                i <= KEY_COUNT,
                cells@.len() == i,
                forall|j: int| 0 <= j < i ==> !cells@[j],
            decreases KEY_COUNT - i,
        {
            cells.push(false);
            i += 1;
        }
        ScanGrid { cells }
    }

    /// Reads the switch state recorded at `(row, col)`.
    pub fn get(&self, row: usize, col: usize) -> (closed: bool)
        requires
            self.wf(),
            row < ROWS,
            col < COLUMNS,
        ensures
            closed == self.at(row as int, col as int),
    {
        self.cells[row * COLUMNS + col]
    }

    /// Records the switch state at `(row, col)`, leaving every other cell
    /// unchanged.
    pub fn set(&mut self, row: usize, col: usize, closed: bool)
        requires
            old(self).wf(),
            row < ROWS,
            col < COLUMNS,
        ensures
            final(self).wf(),
            final(self)@ == old(self)@.update(row as int * COLUMNS + col, closed),
            final(self).at(row as int, col as int) == closed,
            forall|r: int, c: int|
                0 <= r < ROWS && 0 <= c < COLUMNS && !(r == row && c == col)
                    ==> final(self).at(r, c) == old(self).at(r, c),
    {
        let i = row * COLUMNS + col;
        self.cells[i] = closed;
        proof {
            assert forall|r: int, c: int|
                0 <= r < ROWS && 0 <= c < COLUMNS && !(r == row && c == col)
                    implies self.at(r, c) == old(self).at(r, c) by {
                assert(r * COLUMNS + c != row as int * COLUMNS + col as int);
            }
        }
    }
}

} // verus!
