//! Logical key identities and the static key map of the matrix.

use vstd::prelude::*;

verus! {

/// Number of rows in the key matrix.
pub const ROWS: usize = 4;

/// Number of columns in the key matrix.
pub const COLUMNS: usize = 4;

/// Capacity of a key report: one slot per switch of the matrix.
pub const KEY_COUNT: usize = ROWS * COLUMNS;

/// A logical key identity as carried in a keyboard report.
///
/// `NoEvent` is the sentinel that fills unused report slots; the letters are
/// the identities the key map assigns to the sixteen switch positions.
#[derive(Clone, Copy, PartialEq, Eq, Structural, Debug)]
pub enum Key {
    NoEvent,
    A,
    B,
    C,
    D,
    E,
    F,
    G,
    H,
    I,
    J,
    K,
    L,
    M,
    N,
    O,
    P,
}

impl Key {
    /// The HID usage code of this key on the keyboard usage page.
    pub open spec fn spec_usage(self) -> u8 {
        match self {
            Key::NoEvent => 0,
            Key::A => 4,
            Key::B => 5,
            Key::C => 6,
            Key::D => 7,
            Key::E => 8,
            Key::F => 9,
            Key::G => 10,
            Key::H => 11,
            Key::I => 12,
            Key::J => 13,
            Key::K => 14,
            Key::L => 15,
            Key::M => 16,
            Key::N => 17,
            Key::O => 18,
            Key::P => 19,
        }
    }

    /// Returns the HID usage code of this key.
    #[verifier::when_used_as_spec(spec_usage)]
    pub fn usage(self) -> (code: u8)
        ensures
            code == self.spec_usage(),
    {
        match self {
            Key::NoEvent => 0,
            Key::A => 4,
            Key::B => 5,
            Key::C => 6,
            Key::D => 7,
            Key::E => 8,
            Key::F => 9,
            Key::G => 10,
            Key::H => 11,
            Key::I => 12,
            Key::J => 13,
            Key::K => 14,
            Key::L => 15,
            Key::M => 16,
            Key::N => 17,
            Key::O => 18,
            Key::P => 19,
        }
    }
}

/// The key map: the logical key assigned to the switch at `(row, col)`,
/// laid out as the A–P block in row-major order.  Positions outside the
/// matrix carry the sentinel.
pub open spec fn spec_key_at(row: int, col: int) -> Key {
    if row == 0 {
        if col == 0 {
            Key::A
        } else if col == 1 {
            Key::B
        } else if col == 2 {
            Key::C
        } else if col == 3 {
            Key::D
        } else {
            Key::NoEvent
        }
    } else if row == 1 {
        if col == 0 {
            Key::E
        } else if col == 1 {
            Key::F
        } else if col == 2 {
            Key::G
        } else if col == 3 {
            Key::H
        } else {
            Key::NoEvent
        }
    } else if row == 2 {
        if col == 0 {
            Key::I
        } else if col == 1 {
            Key::J
        } else if col == 2 {
            Key::K
        } else if col == 3 {
            Key::L
        } else {
            Key::NoEvent
        }
    } else if row == 3 {
        if col == 0 {
            Key::M
        } else if col == 1 {
            Key::N
        } else if col == 2 {
            Key::O
        } else if col == 3 {
            Key::P
        } else {
            Key::NoEvent
        }
    } else {
        Key::NoEvent
    }
}

/// Looks up the key map at a matrix position.
pub fn key_at(row: usize, col: usize) -> (key: Key)
    requires
        row < ROWS,
        col < COLUMNS,
    ensures
        key == spec_key_at(row as int, col as int),
{
    match (row, col) {
        (0, 0) => Key::A,
        (0, 1) => Key::B,
        (0, 2) => Key::C,
        (0, 3) => Key::D,
        (1, 0) => Key::E,
        (1, 1) => Key::F,
        (1, 2) => Key::G,
        (1, 3) => Key::H,
        (2, 0) => Key::I,
        (2, 1) => Key::J,
        (2, 2) => Key::K,
        (2, 3) => Key::L,
        (3, 0) => Key::M,
        (3, 1) => Key::N,
        (3, 2) => Key::O,
        (3, 3) => Key::P,
        (_, _) => Key::NoEvent,
    }
}

/// The key map is total and never assigns the sentinel to a switch: every
/// position inside the matrix carries exactly one real key identity.
pub proof fn lemma_key_map_total()
    ensures
        forall|row: int, col: int|
            0 <= row < ROWS && 0 <= col < COLUMNS ==> spec_key_at(row, col) != Key::NoEvent,
{
}

} // verus!
