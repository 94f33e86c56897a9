//! The matrix scanner: a step machine that commands the column and row
//! pins one action at a time and assembles the raw scan grid.
//!
//! The scanner owns the scanning discipline — activate one column, wait the
//! settle delay, sample every row, deactivate, move on — while the caller
//! performs each commanded pin operation and feeds row samples back in.  A
//! ghost trace of every commanded action shows that no two columns are ever
//! driven active at once, the discipline that prevents ghosting.

use vstd::prelude::*;
use crate::grid::ScanGrid;
use crate::keys::COLUMNS;
use crate::keys::ROWS;

verus! {

/// One pin operation commanded during a scan.
#[derive(Clone, Copy, PartialEq, Eq, Structural, Debug)]
pub enum ScanAction {
    /// Drive the column output active.
    Activate { col: usize },
    /// Wait the fixed column-settle delay before sampling.
    Settle,
    /// Read the row input; the caller reports the level via `record`.
    Sample { row: usize },
    /// Drive the column output back inactive.
    Deactivate { col: usize },
}

/// Where the scanner stands within the scan of the current column.
#[derive(Clone, Copy, PartialEq, Eq, Structural, Debug)]
pub enum ScanPhase {
    /// About to drive the current column active.
    Activate,
    /// About to wait the settle delay.
    Settle,
    /// About to command the read of the current row.
    SampleReady,
    /// Waiting for the caller to report the sampled row level.
    SampleWait,
    /// About to drive the current column back inactive.
    Deactivate,
    /// Every column has been scanned; the grid is complete.
    Done,
}

/// The electrical state of column pin `c` after the actions of `t` have
/// been performed, starting from all columns inactive.
pub open spec fn pin_high_after(t: Seq<ScanAction>, c: int) -> bool
    decreases t.len(),
{
    if t.len() == 0 {
        false
    } else {
        match t.last() {
            ScanAction::Activate { col } => if col == c {
                true
            } else {
                pin_high_after(t.drop_last(), c)
            },
            ScanAction::Deactivate { col } => if col == c {
                false
            } else {
                pin_high_after(t.drop_last(), c)
            },
            _ => pin_high_after(t.drop_last(), c),
        }
    }
}

/// No two distinct columns are left active by the actions of `t`.
pub open spec fn at_most_one_active(t: Seq<ScanAction>) -> bool {
    forall|c1: int, c2: int|
        #[trigger] pin_high_after(t, c1) && #[trigger] pin_high_after(t, c2) ==> c1 == c2
}

/// At every instant along the trace — after every prefix of its actions —
/// at most one column is active.
pub open spec fn trace_safe(t: Seq<ScanAction>) -> bool {
    forall|i: int| 0 <= i <= t.len() ==> at_most_one_active(#[trigger] t.subrange(0, i))
}

/// The matrix scanner.  One full scan commands, for each column in turn:
/// activate, settle, one sample per row, deactivate; `record` places each
/// sample at the current `(row, col)` cell of the grid.
pub struct MatrixScanner {
    /// The column currently being scanned.
    pub col: usize,
    /// The row about to be (or being) sampled.
    pub row: usize,
    /// Position within the scan of the current column.
    pub phase: ScanPhase,
    /// The grid assembled so far.
    pub grid: ScanGrid,
    /// Every action commanded so far, oldest first.
    pub trace: Ghost<Seq<ScanAction>>,
}

impl MatrixScanner {
    /// Whether the scanner, standing as it does, holds column `c` active.
    pub open spec fn col_is_active(&self, c: int) -> bool {
        c == self.col as int && (self.phase is Settle || self.phase is SampleReady
            || self.phase is SampleWait || self.phase is Deactivate)
    }

    /// The scanner's invariant: indices in range, a well-formed grid, and a
    /// trace whose pin effect matches the scanner's own position — so that
    /// at most one column is ever active.
    pub open spec fn wf(&self) -> bool {
        &&& self.grid.wf()
        &&& !(self.phase is Done) ==> self.col < COLUMNS
        &&& (self.phase is SampleReady || self.phase is SampleWait) ==> self.row < ROWS
        &&& (forall|c: int| #[trigger] pin_high_after(self.trace@, c) == self.col_is_active(c))
        &&& trace_safe(self.trace@)
    }

    /// A scanner at the start of a scan: first column, all pins inactive,
    /// every grid cell open.
    pub fn new() -> (s: MatrixScanner)
        ensures
            s.wf(),
            s.phase is Activate,
            s.col == 0,
            s.trace@ == Seq::<ScanAction>::empty(),
            s.grid.wf(),
            forall|i: int| 0 <= i < s.grid@.len() ==> !s.grid@[i],
    {
        let s = MatrixScanner {
            col: 0,
            row: 0,
            phase: ScanPhase::Activate,
            grid: ScanGrid::new(),
            trace: Ghost(Seq::empty()),
        };
        proof {
            assert forall|i: int| 0 <= i <= s.trace@.len() implies at_most_one_active(
                #[trigger] s.trace@.subrange(0, i),
            ) by {
                assert(s.trace@.subrange(0, i) =~= s.trace@);
            }
        }
        s
    }

    /// Commands the next pin action and advances.  After a `Sample` action
    /// the caller must report the read level through `record` before asking
    /// for the next action.
    ///
    /// A column is only ever activated while no column is active, and only
    /// the active column is ever deactivated.
    pub fn next(&mut self) -> (action: ScanAction)
        requires
            old(self).wf(),
            !(old(self).phase is SampleWait),
            !(old(self).phase is Done),
        ensures
            final(self).wf(),
            final(self).grid@ == old(self).grid@,
            final(self).trace@ == old(self).trace@.push(action),
            action matches ScanAction::Activate { col } ==> (forall|c: int|
                !old(self).col_is_active(c)) && col == old(self).col,
            action matches ScanAction::Deactivate { col } ==> old(self).col_is_active(col as int),
            old(self).phase is Activate ==> action == (ScanAction::Activate {
                col: old(self).col,
            }) && final(self).phase is Settle && final(self).col == old(self).col,
            old(self).phase is Settle ==> action == ScanAction::Settle && final(self).phase
                is SampleReady && final(self).col == old(self).col && final(self).row == 0,
            old(self).phase is SampleReady ==> action == (ScanAction::Sample {
                row: old(self).row,
            }) && final(self).phase is SampleWait && final(self).col == old(self).col
                && final(self).row == old(self).row,
            old(self).phase is Deactivate ==> action == (ScanAction::Deactivate {
                col: old(self).col,
            }) && (if old(self).col + 1 == COLUMNS {
                final(self).phase is Done
            } else {
                final(self).phase is Activate && final(self).col == old(self).col + 1
            }),
    {
        let action: ScanAction;
        match self.phase {
            ScanPhase::Activate => {
                action = ScanAction::Activate { col: self.col };
                self.phase = ScanPhase::Settle;
            },
            ScanPhase::Settle => {
                action = ScanAction::Settle;
                self.row = 0;
                self.phase = ScanPhase::SampleReady;
            },
            ScanPhase::SampleReady => {
                action = ScanAction::Sample { row: self.row };
                self.phase = ScanPhase::SampleWait;
            },
            ScanPhase::Deactivate => {
                action = ScanAction::Deactivate { col: self.col };
                if self.col + 1 == COLUMNS {
                    self.phase = ScanPhase::Done;
                } else {
                    self.col = self.col + 1;
                    self.phase = ScanPhase::Activate;
                }
            },
            ScanPhase::SampleWait | ScanPhase::Done => {
                proof {
                    assert(false);
                }
                action = ScanAction::Settle;
            },
        }
        proof {
            let t = old(self).trace@;
            self.trace@ = t.push(action);
            assert forall|c: int| #[trigger] pin_high_after(self.trace@, c) == self.col_is_active(
                c,
            ) by {
                lemma_pin_high_push(t, action, c);
            }
            assert(at_most_one_active(self.trace@)) by {
                assert forall|c1: int, c2: int|
                    #[trigger] pin_high_after(self.trace@, c1) && #[trigger] pin_high_after(
                        self.trace@,
                        c2,
                    ) implies c1 == c2 by {
                    assert(self.col_is_active(c1) && self.col_is_active(c2));
                }
            }
            lemma_trace_safe_push(t, action);
        }
        action
    }

    /// Reports the level sampled at the commanded row: the scanner records
    /// it at the current `(row, col)` cell — the column that is active at
    /// this instant — and leaves every other cell unchanged.
    pub fn record(&mut self, closed: bool)
        requires
            old(self).wf(),
            old(self).phase is SampleWait,
        ensures
            final(self).wf(),
            final(self).trace@ == old(self).trace@,
            final(self).col == old(self).col,
            old(self).col_is_active(old(self).col as int),
            final(self).grid@ == old(self).grid@.update(
                old(self).row as int * COLUMNS + old(self).col,
                closed,
            ),
            if old(self).row + 1 == ROWS {
                final(self).phase is Deactivate
            } else {
                final(self).phase is SampleReady && final(self).row == old(self).row + 1
            },
    {
        let row = self.row;
        let col = self.col;
        self.grid.set(row, col, closed);
        if self.row + 1 == ROWS {
            self.phase = ScanPhase::Deactivate;
        } else {
            self.row = self.row + 1;
            self.phase = ScanPhase::SampleReady;
        }
    }

    /// Whether the scan is complete.
    pub fn is_done(&self) -> (done: bool)
        ensures
            done == (self.phase is Done),
    {
        match self.phase {
            ScanPhase::Done => true,
            _ => false,
        }
    }

    /// Hands out the completed raw scan grid.
    pub fn into_grid(self) -> (grid: ScanGrid)
        requires
            self.wf(),
            self.phase is Done,
        ensures
            grid.wf(),
            grid@ == self.grid@,
    {
        self.grid
    }
}

proof fn lemma_pin_high_push(t: Seq<ScanAction>, a: ScanAction, c: int)
    ensures
        pin_high_after(t.push(a), c) == (match a {
            ScanAction::Activate { col } => if col == c {
                true
            } else {
                pin_high_after(t, c)
            },
            ScanAction::Deactivate { col } => if col == c {
                false
            } else {
                pin_high_after(t, c)
            },
            _ => pin_high_after(t, c),
        }),
{
    assert(t.push(a).drop_last() =~= t);
    assert(t.push(a).last() == a);
}

proof fn lemma_trace_safe_push(t: Seq<ScanAction>, a: ScanAction)
    requires
        trace_safe(t),
        at_most_one_active(t.push(a)),
    ensures
        trace_safe(t.push(a)),
{
    let pushed = t.push(a);
    assert forall|i: int| 0 <= i <= pushed.len() implies at_most_one_active(
        #[trigger] pushed.subrange(0, i),
    ) by {
        if i <= t.len() {
            assert(pushed.subrange(0, i) =~= t.subrange(0, i));
        } else {
            assert(pushed.subrange(0, i) =~= pushed);
        }
    }
}

/// Scanning never activates two columns simultaneously: after every prefix
/// of the pin actions a scanner has commanded, at most one column output is
/// active.
pub proof fn lemma_single_active_column(s: &MatrixScanner)
    requires
        s.wf(),
    ensures
        trace_safe(s.trace@),
{
}

} // verus!
