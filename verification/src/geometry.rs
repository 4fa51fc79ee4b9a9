//! Playfield dimensions and coordinate validity checks.
//!
//! The playfield is a fixed-size grid with a one-cell border reserved for the
//! frame: the playable cells are columns and rows `1 ..= size + 1`, and the
//! fruit-spawn interior is the open region `1 ..= size - 2` on each axis.

use vstd::prelude::*;

verus! {

/// Width of the playfield, in cells, excluding the border.
pub const WIDTH: i8 = 16;

/// Height of the playfield, in cells, excluding the border.
pub const HEIGHT: i8 = 16;

/// A grid position: a (column, row) pair of signed cell indices.
#[derive(Clone, Copy, PartialEq, Eq, Structural, Debug)]
pub struct Coord {
    pub col: i8,
    pub row: i8,
}

/// A coordinate is out of bounds when it lies beyond the frame on any side:
/// at or before column/row 0, or past column `WIDTH + 1` / row `HEIGHT + 1`.
pub open spec fn spec_out_of_bounds(c: Coord) -> bool {
    c.col <= 0 || c.col > WIDTH + 1 || c.row <= 0 || c.row > HEIGHT + 1
}

/// A coordinate lies in the spawn interior: strictly inside the playfield,
/// never on a border cell.
pub open spec fn spec_in_interior(c: Coord) -> bool {
    1 <= c.col < WIDTH - 1 && 1 <= c.row < HEIGHT - 1
}

/// True when the coordinate lies beyond the playfield frame on any side.
pub fn is_out_of_bounds(c: Coord) -> (r: bool)
    ensures
        r == spec_out_of_bounds(c),
{
    c.col <= 0 || c.col > WIDTH + 1 || c.row <= 0 || c.row > HEIGHT + 1
}

/// True when the coordinate lies in the fruit-spawn interior.
pub fn in_interior(c: Coord) -> (r: bool)
    ensures
        r == spec_in_interior(c),
{
    1 <= c.col && c.col < WIDTH - 1 && 1 <= c.row && c.row < HEIGHT - 1
}

} // verus!
