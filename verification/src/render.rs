//! The frame a tick paints: which screen cells to fill, in which color
//! and in which order. Each grid cell is two character-columns wide, so
//! the board looks square in a terminal.

use crate::game::GameState;
use crate::geometry::Position;
use vstd::prelude::*;

verus! {

/// What a filled screen cell stands for; the terminal gives each role
/// its own color.
#[derive(Clone, Copy, PartialEq, Eq, Structural, Debug)]
pub enum CellColor {
    SnakeBody,
    SnakeHead,
    Apple,
}

/// One filled cell of the frame, in character coordinates: `column` is
/// already doubled, `row` is the grid row.
#[derive(Clone, Copy, PartialEq, Eq, Structural, Debug)]
pub struct ScreenCell {
    pub column: u16,
    pub row: u16,
    pub color: CellColor,
}

/// The screen cell a grid position paints: the column doubled for the
/// two-character-wide block.
pub open spec fn cell_at(p: Position, color: CellColor) -> ScreenCell {
    ScreenCell { column: (p.x * 2) as u16, row: p.y as u16, color }
}

fn make_cell(p: Position, color: CellColor) -> (c: ScreenCell)
    requires
        0 <= p.x < 0x8000,
        0 <= p.y <= u16::MAX,
    ensures
        c == cell_at(p, color),
{
    ScreenCell { column: (p.x * 2) as u16, row: p.y as u16, color }
}

/// The cells one frame fills, in drawing order: every body segment but
/// the head, then the head, then the apple, so that what is drawn later
/// shows on top where cells coincide.
pub fn render_cells(state: &GameState) -> (r: Vec<ScreenCell>)
    requires
        state@.wf(),
        state@.bounds.columns <= 0x8000,
    ensures
        r@.len() == state@.body.len() + 1,
        forall|i: int|
            1 <= i < state@.body.len() ==> r@[i - 1] == cell_at(
                #[trigger] state@.body[i],
                CellColor::SnakeBody,
            ),
        r@[state@.body.len() - 1] == cell_at(state@.head(), CellColor::SnakeHead),
        r@[state@.body.len() as int] == cell_at(state@.apple, CellColor::Apple),
{
    let n: usize = state.body.len();
    let mut cells: Vec<ScreenCell> = Vec::new();
    let mut i: usize = 1;
    while i < n
        invariant
            1 <= i <= n,
            n == state@.body.len(),
            state@.wf(),
            state@.bounds.columns <= 0x8000,
            cells@.len() == i - 1,
            forall|j: int|
                1 <= j < i ==> cells@[j - 1] == cell_at(
                    #[trigger] state@.body[j],
                    CellColor::SnakeBody,
                ),
        decreases n - i,
    {
        let cell = make_cell(state.body[i], CellColor::SnakeBody);
        cells.push(cell);
        i = i + 1;
    }
    let head_cell = make_cell(state.body[0], CellColor::SnakeHead);
    cells.push(head_cell);
    let apple_cell = make_cell(state.apple, CellColor::Apple);
    cells.push(apple_cell);
    cells
}

} // verus!
