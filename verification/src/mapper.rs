//! The key mapper: turns a raw scan grid into a key report.

use vstd::prelude::*;
use crate::grid::ScanGrid;
use crate::keys::COLUMNS;
use crate::keys::KEY_COUNT;
use crate::keys::Key;
use crate::keys::ROWS;
use crate::keys::key_at;
use crate::keys::spec_key_at;

verus! {

/// The key map entry for the flattened (row-major) cell index `i`.
pub open spec fn key_at_index(i: int) -> Key {
    spec_key_at(i / (COLUMNS as int), i % (COLUMNS as int))
}

/// The keys of the closed switches among the first `n` cells of the
/// flattened grid, in row-major order.
pub open spec fn pressed_keys_upto(grid: Seq<bool>, n: int) -> Seq<Key>
    decreases n,
{
    if n <= 0 {
        Seq::empty()
    } else if grid[n - 1] {
        pressed_keys_upto(grid, n - 1).push(key_at_index(n - 1))
    } else {
        pressed_keys_upto(grid, n - 1)
    }
}

/// The keys of all closed switches of the grid, in row-major order.
pub open spec fn pressed_keys(grid: Seq<bool>) -> Seq<Key> {
    pressed_keys_upto(grid, KEY_COUNT as int)
}

/// The key report for a grid: the row-major pressed keys, padded with the
/// `NoEvent` sentinel up to the report capacity.
pub open spec fn report_of(grid: Seq<bool>) -> Seq<Key> {
    pressed_keys(grid) + Seq::new(
        (KEY_COUNT - pressed_keys(grid).len()) as nat,
        |i: int| Key::NoEvent,
    )
}

/// At most one key is pressed per cell: the pressed-key list over the first
/// `n` cells has at most `n` entries.
pub proof fn lemma_pressed_keys_upto_len(grid: Seq<bool>, n: int)
    requires
        n >= 0,
    ensures
        pressed_keys_upto(grid, n).len() <= n,
    decreases n,
{
    if n > 0 {
        lemma_pressed_keys_upto_len(grid, n - 1);
    }
}

/// How many of the first `n` cells of the flattened grid are closed.
pub open spec fn count_closed(grid: Seq<bool>, n: int) -> int
    decreases n,
{
    if n <= 0 {
        0
    } else {
        count_closed(grid, n - 1) + if grid[n - 1] {
            1int
        } else {
            0
        }
    }
}

/// The report carries one entry per closed switch: the pressed-key list is
/// exactly as long as the number of closed cells it covers.
pub proof fn lemma_one_key_per_closed_switch(grid: Seq<bool>, n: int)
    requires
        n >= 0,
    ensures
        pressed_keys_upto(grid, n).len() == count_closed(grid, n),
    decreases n,
{
    if n > 0 {
        lemma_one_key_per_closed_switch(grid, n - 1);
    }
}

/// Every entry of the pressed-key list is a real key, never the sentinel:
/// together with the contract of `map`, the report's non-sentinel entries
/// are exactly the key map lookups at the closed cells, in row-major order.
pub proof fn lemma_pressed_keys_non_sentinel(grid: Seq<bool>, n: int)
    requires
        0 <= n <= KEY_COUNT,
    ensures
        forall|i: int|
            0 <= i < pressed_keys_upto(grid, n).len()
                ==> pressed_keys_upto(grid, n)[i] != Key::NoEvent,
    decreases n,
{
    if n > 0 {
        lemma_pressed_keys_non_sentinel(grid, n - 1);
        crate::keys::lemma_key_map_total();
    }
}

/// The mapper is deterministic and idempotent: the report is a pure
/// function of the grid, so identical grids always yield identical reports.
pub proof fn lemma_map_deterministic(grid_a: Seq<bool>, grid_b: Seq<bool>)
    requires
        grid_a == grid_b,
    ensures
        report_of(grid_a) == report_of(grid_b),
{
}

/// A grid with every switch open maps to a report made of the sentinel
/// alone.
pub proof fn lemma_all_open_reports_nothing(grid: Seq<bool>)
    requires
        grid.len() == KEY_COUNT,
        forall|i: int| 0 <= i < KEY_COUNT ==> !grid[i],
    ensures
        report_of(grid) == Seq::new(KEY_COUNT as nat, |i: int| Key::NoEvent),
{
    lemma_pressed_empty(grid, KEY_COUNT as int);
    assert(report_of(grid) =~= Seq::new(KEY_COUNT as nat, |i: int| Key::NoEvent));
}

proof fn lemma_pressed_empty(grid: Seq<bool>, n: int)
    requires
        0 <= n <= grid.len(),
        forall|i: int| 0 <= i < grid.len() ==> !grid[i],
    ensures
        pressed_keys_upto(grid, n) == Seq::<Key>::empty(),
    decreases n,
{
    if n > 0 {
        lemma_pressed_empty(grid, n - 1);
    }
}

/// A grid with every switch closed maps to a report that holds every entry
/// of the key map exactly once, in row-major order, with no sentinel left.
pub proof fn lemma_all_closed_reports_every_key(grid: Seq<bool>)
    requires
        grid.len() == KEY_COUNT,
        forall|i: int| 0 <= i < KEY_COUNT ==> grid[i],
    ensures
        report_of(grid) == Seq::new(KEY_COUNT as nat, |i: int| key_at_index(i)),
{
    lemma_pressed_full(grid, KEY_COUNT as int);
    assert(report_of(grid) =~= Seq::new(KEY_COUNT as nat, |i: int| key_at_index(i)));
}

proof fn lemma_pressed_full(grid: Seq<bool>, n: int)
    requires
        0 <= n <= grid.len(),
        forall|i: int| 0 <= i < grid.len() ==> grid[i],
    ensures
        pressed_keys_upto(grid, n) == Seq::new(n as nat, |i: int| key_at_index(i)),
    decreases n,
{
    if n > 0 {
        lemma_pressed_full(grid, n - 1);
        assert(pressed_keys_upto(grid, n) =~= Seq::new(n as nat, |i: int| key_at_index(i)));
    } else {
        assert(pressed_keys_upto(grid, n) =~= Seq::new(n as nat, |i: int| key_at_index(i)));
    }
}

/// Maps a raw scan grid to a key report.
///
/// The report always has exactly `KEY_COUNT` slots: first the key map
/// entries of every closed switch, visited in row-major order, then the
/// `NoEvent` sentinel in every remaining slot.
pub fn map(grid: &ScanGrid) -> (report: Vec<Key>)
    requires
        grid.wf(),
    ensures
        report@ == report_of(grid@),
        report@.len() == KEY_COUNT,
{
    let mut report: Vec<Key> = Vec::new();
    let mut row: usize = 0;
    while row < ROWS
        invariant
            grid.wf(),
            row <= ROWS,
            report@ == pressed_keys_upto(grid@, row as int * COLUMNS),
        decreases ROWS - row,
    {
        let mut col: usize = 0;
        while col < COLUMNS
            invariant
                grid.wf(),
                row < ROWS,
                col <= COLUMNS,
                report@ == pressed_keys_upto(grid@, row as int * COLUMNS + col),
            decreases COLUMNS - col,
        {
            proof {
                let n = row as int * COLUMNS + col;
                assert(n / (COLUMNS as int) == row && n % (COLUMNS as int) == col);
            }
            if grid.get(row, col) {
                report.push(key_at(row, col));
            }
            col += 1;
        }
        row += 1;
    }
    proof {
        lemma_pressed_keys_upto_len(grid@, KEY_COUNT as int);
        assert(report@ == pressed_keys(grid@));
        assert(report@ =~= pressed_keys(grid@) + Seq::new(
            (report@.len() - pressed_keys(grid@).len()) as nat,
            |i: int| Key::NoEvent,
        ));
    }
    while report.len() < KEY_COUNT
        invariant
            pressed_keys(grid@).len() <= report@.len() <= KEY_COUNT,
            report@ == pressed_keys(grid@) + Seq::new(
                (report@.len() - pressed_keys(grid@).len()) as nat,
                |i: int| Key::NoEvent,
            ),
        decreases KEY_COUNT - report.len(),
    {
        report.push(Key::NoEvent);
        proof {
            assert(report@ =~= pressed_keys(grid@) + Seq::new(
                (report@.len() - pressed_keys(grid@).len()) as nat,
                |i: int| Key::NoEvent,
            ));
        }
    }
    report
}

} // verus!
