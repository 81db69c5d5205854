//! Grid geometry: positions, bounds, and the toroidal move primitive.

use vstd::arithmetic::div_mod::{
    lemma_fundamental_div_mod, lemma_mod_bound, lemma_mod_multiples_vanish, lemma_small_mod,
};
use vstd::prelude::*;

verus! {

/// A cell on the grid, addressed by column (`x`) and row (`y`).
#[derive(Clone, Copy, PartialEq, Eq, Structural, Debug)]
pub struct Position {
    pub x: i32,
    pub y: i32,
}

/// The fixed size of the grid: `columns` cells across, `rows` cells down.
#[derive(Clone, Copy, PartialEq, Eq, Structural, Debug)]
pub struct Bounds {
    pub columns: u16,
    pub rows: u16,
}

pub open spec fn bounds_valid(b: Bounds) -> bool {
    b.columns > 0 && b.rows > 0
}

pub open spec fn in_bounds(p: Position, b: Bounds) -> bool {
    &&& 0 <= p.x < b.columns
    &&& 0 <= p.y < b.rows
}

/// The toroidal move: each coordinate is shifted by the delta and reduced
/// with a mathematically non-negative modulo, so leaving one edge re-enters
/// at the opposite edge, even when the shifted coordinate is negative.
pub open spec fn wrapped(p: Position, b: Bounds, dx: int, dy: int) -> Position {
    Position {
        x: ((p.x + dx) % (b.columns as int)) as i32,
        y: ((p.y + dy) % (b.rows as int)) as i32,
    }
}

/// Law: wrapping always lands inside the grid, whatever the starting
/// position and the delta.
pub proof fn lemma_wrapped_in_bounds(p: Position, b: Bounds, dx: int, dy: int)
    requires
        bounds_valid(b),
    ensures
        in_bounds(wrapped(p, b, dx, dy), b),
{
    lemma_mod_bound(p.x + dx, b.columns as int);
    lemma_mod_bound(p.y + dy, b.rows as int);
}

/// Law: a zero delta moves nothing: wrapping is the identity on any
/// position that already lies inside the grid.
pub proof fn lemma_wrapped_zero_delta(p: Position, b: Bounds)
    requires
        bounds_valid(b),
        in_bounds(p, b),
    ensures
        wrapped(p, b, 0, 0) == p,
{
    lemma_small_mod(p.x as nat, b.columns as nat);
    lemma_small_mod(p.y as nat, b.rows as nat);
}

/// How the non-negative modulo of a negative value follows from the
/// modulo of its absolute value.
proof fn lemma_mod_of_negative(s: int, m: int)
    requires
        m > 0,
        s < 0,
    ensures
        (-s) % m == 0 ==> s % m == 0,
        (-s) % m != 0 ==> s % m == m - ((-s) % m),
{
    let u = -s;
    let q = u / m;
    let t = u % m;
    lemma_fundamental_div_mod(u, m);
    lemma_mod_bound(u, m);
    if t == 0 {
        assert(m * (-q) + 0 == -(m * q + t)) by (nonlinear_arith)
            requires t == 0;
        assert(s == m * (-q) + 0);
        lemma_mod_multiples_vanish(-q, 0, m);
        lemma_small_mod(0, m as nat);
    } else {
        assert(m * (-q - 1) + (m - t) == -(m * q + t)) by (nonlinear_arith);
        assert(s == m * (-q - 1) + (m - t));
        lemma_mod_multiples_vanish(-q - 1, m - t, m);
        lemma_small_mod((m - t) as nat, m as nat);
    }
}

/// One coordinate of the toroidal move: `(v + d) mod m`, non-negative.
fn wrap_coord(v: i32, d: i32, m: u16) -> (r: i32)
    requires
        m > 0,
    ensures
        r == (v + d) % (m as int),
        0 <= r < m,
{
    proof {
        lemma_mod_bound(v + d, m as int);
    }
    let s: i64 = (v as i64) + (d as i64);
    if s >= 0 {
        ((s as u64) % (m as u64)) as i32
    } else {
        let t: u64 = ((-s) as u64) % (m as u64);
        proof {
            lemma_mod_of_negative(s as int, m as int);
        }
        if t == 0 {
            0
        } else {
            ((m as u64) - t) as i32
        }
    }
}

/// Moves the position by the delta, wrapping around the grid edges.
/// The sole movement primitive: it never fails, it only wraps.
pub fn move_wrap(position: &mut Position, bounds: &Bounds, delta: (i32, i32))
    requires
        bounds_valid(*bounds),
    ensures
        *final(position) == wrapped(*old(position), *bounds, delta.0 as int, delta.1 as int),
        in_bounds(*final(position), *bounds),
{
    position.x = wrap_coord(position.x, delta.0, bounds.columns);
    position.y = wrap_coord(position.y, delta.1, bounds.rows);
}

} // verus!
