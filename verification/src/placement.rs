//! Random placement of cells on the grid, for the apple and the
//! snake's starting segment.

use crate::geometry::{bounds_valid, in_bounds, Bounds, Position};
use vstd::prelude::*;

verus! {

/// Relies on rand::thread_rng and rand::Rng::gen_range: a draw from the
/// half-open range `low..high` returns a value in `[low, high)` and
/// panics only when the range is empty, which the precondition rules out.
#[verifier::external_body]
fn gen_range_i32(low: i32, high: i32) -> (r: i32)
    requires
        low < high,
    ensures
        low <= r < high,
{
    rand::Rng::gen_range(&mut rand::thread_rng(), low..high)
}

/// A random cell of the grid: each coordinate is a fresh, independent
/// draw from its axis' range. No occupied cell is excluded, so the
/// result may land on the snake's body.
pub fn random_position(bounds: &Bounds) -> (p: Position)
    requires
        bounds_valid(*bounds),
    ensures
        in_bounds(p, *bounds),
{
    Position {
        x: gen_range_i32(0, bounds.columns as i32),
        y: gen_range_i32(0, bounds.rows as i32),
    }
}

} // verus!
