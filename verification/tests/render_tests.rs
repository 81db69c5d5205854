use snake::game::{Direction, GameState, Status};
use snake::geometry::{Bounds, Position};
use snake::lifecycle::{resolve_bounds, score_line_position};
use snake::render::{render_cells, CellColor, ScreenCell};
use std::collections::VecDeque;

#[test]
fn frame_lists_tail_then_head_then_apple() {
    let s = GameState {
        bounds: Bounds { columns: 10, rows: 10 },
        body: VecDeque::from(vec![
            Position { x: 6, y: 5 },
            Position { x: 5, y: 5 },
            Position { x: 4, y: 5 },
        ]),
        apple: Position { x: 2, y: 9 },
        direction: Direction::Right,
        score: 2,
        status: Status::Running,
    };
    let cells = render_cells(&s);
    assert_eq!(cells.len(), 4);
    assert_eq!(cells[0], ScreenCell { column: 10, row: 5, color: CellColor::SnakeBody });
    assert_eq!(cells[1], ScreenCell { column: 8, row: 5, color: CellColor::SnakeBody });
    assert_eq!(cells[2], ScreenCell { column: 12, row: 5, color: CellColor::SnakeHead });
    assert_eq!(cells[3], ScreenCell { column: 4, row: 9, color: CellColor::Apple });
}

#[test]
fn single_segment_frame_has_head_and_apple_only() {
    let s = GameState {
        bounds: Bounds { columns: 3, rows: 3 },
        body: VecDeque::from(vec![Position { x: 0, y: 0 }]),
        apple: Position { x: 2, y: 2 },
        direction: Direction::Idle,
        score: 0,
        status: Status::Running,
    };
    let cells = render_cells(&s);
    assert_eq!(cells.len(), 2);
    assert_eq!(cells[0], ScreenCell { column: 0, row: 0, color: CellColor::SnakeHead });
    assert_eq!(cells[1], ScreenCell { column: 4, row: 2, color: CellColor::Apple });
}

#[test]
fn resolve_bounds_halves_terminal_columns() {
    let b = resolve_bounds(80, 24, None);
    assert_eq!(b, Bounds { columns: 40, rows: 24 });
}

#[test]
fn resolve_bounds_halves_supplied_columns() {
    let b = resolve_bounds(80, 24, Some((21, 9)));
    assert_eq!(b, Bounds { columns: 10, rows: 9 });
}

#[test]
fn score_line_is_centered() {
    // "Score: 3" has 8 characters; its anchor sits 4 columns left of the
    // grid's column count, on the middle row.
    let pos = score_line_position(&Bounds { columns: 40, rows: 24 }, 8);
    assert_eq!(pos, (36, 12));
}

#[test]
fn score_line_clamps_at_screen_edge() {
    let pos = score_line_position(&Bounds { columns: 3, rows: 5 }, 10);
    assert_eq!(pos, (0, 2));
}
