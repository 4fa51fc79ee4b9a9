//! Random coordinates for fruit placement.

use rand::Rng;
use vstd::prelude::*;

use crate::geometry::{Coord, HEIGHT, WIDTH, spec_in_interior};

verus! {

/// Relies on rand's `Rng::gen_range` on a half-open integer range: the result
/// lies in `lo .. hi`, and the call panics only on an empty range, which the
/// precondition rules out.
#[verifier::external_body]
fn random_in_range(lo: i8, hi: i8) -> (r: i8)
    requires
        lo < hi,
    ensures
        lo <= r < hi,
{
    rand::thread_rng().gen_range(lo..hi)
}

/// Draws a random coordinate from the spawn interior. The bounds can never
/// produce a border cell.
pub fn random_interior_coordinate() -> (c: Coord)
    ensures
        spec_in_interior(c),
{
    let col = random_in_range(1, WIDTH - 1);
    let row = random_in_range(1, HEIGHT - 1);
    Coord { col, row }
}

} // verus!
