//! Startup and end-of-game arithmetic: the grid size a session plays on,
//! and where the final score line is anchored.

use crate::geometry::Bounds;
use vstd::prelude::*;

verus! {

/// The grid a session plays on: the terminal's own size, or the two
/// user-supplied integers when present; either way the columns are
/// halved, because each grid cell renders two characters wide.
pub open spec fn resolved_bounds(
    terminal_columns: u16,
    terminal_rows: u16,
    override_size: Option<(u16, u16)>,
) -> Bounds {
    match override_size {
        Some(o) => Bounds { columns: o.0 / 2, rows: o.1 },
        None => Bounds { columns: terminal_columns / 2, rows: terminal_rows },
    }
}

/// Picks the grid size for a session; see `resolved_bounds`.
pub fn resolve_bounds(
    terminal_columns: u16,
    terminal_rows: u16,
    override_size: Option<(u16, u16)>,
) -> (b: Bounds)
    ensures
        b == resolved_bounds(terminal_columns, terminal_rows, override_size),
{
    match override_size {
        Some(o) => Bounds { columns: o.0 / 2, rows: o.1 },
        None => Bounds { columns: terminal_columns / 2, rows: terminal_rows },
    }
}

/// Where the score line is anchored: half its length left of the grid's
/// column count (clamped at the screen edge), on the middle row.
pub open spec fn score_anchor(b: Bounds, text_len: int) -> (u16, u16) {
    (
        if b.columns >= text_len / 2 {
            (b.columns - text_len / 2) as u16
        } else {
            0u16
        },
        b.rows / 2,
    )
}

/// Computes the score line's anchor; see `score_anchor`.
pub fn score_line_position(bounds: &Bounds, text_len: usize) -> (pos: (u16, u16))
    requires
        text_len <= u16::MAX,
    ensures
        pos == score_anchor(*bounds, text_len as int),
{
    let half: u16 = (text_len / 2) as u16;
    let column: u16 = if bounds.columns >= half {
        bounds.columns - half
    } else {
        0
    };
    (column, bounds.rows / 2)
}

} // verus!
