use snake::geometry::{move_wrap, Bounds, Position};

#[test]
fn zero_delta_is_identity() {
    let bounds = Bounds { columns: 10, rows: 10 };
    let mut p = Position { x: 3, y: 7 };
    move_wrap(&mut p, &bounds, (0, 0));
    assert_eq!(p, Position { x: 3, y: 7 });
}

#[test]
fn zero_delta_is_identity_everywhere() {
    let bounds = Bounds { columns: 4, rows: 3 };
    for x in 0..4 {
        for y in 0..3 {
            let mut p = Position { x, y };
            move_wrap(&mut p, &bounds, (0, 0));
            assert_eq!(p, Position { x, y });
        }
    }
}

#[test]
fn wrap_left_from_origin() {
    let bounds = Bounds { columns: 10, rows: 10 };
    let mut p = Position { x: 0, y: 0 };
    move_wrap(&mut p, &bounds, (-1, 0));
    assert_eq!(p, Position { x: 9, y: 0 });
}

#[test]
fn wrap_up_from_origin() {
    let bounds = Bounds { columns: 10, rows: 10 };
    let mut p = Position { x: 0, y: 0 };
    move_wrap(&mut p, &bounds, (0, -1));
    assert_eq!(p, Position { x: 0, y: 9 });
}

#[test]
fn wrap_off_right_edge() {
    let bounds = Bounds { columns: 10, rows: 10 };
    let mut p = Position { x: 9, y: 4 };
    move_wrap(&mut p, &bounds, (1, 0));
    assert_eq!(p, Position { x: 0, y: 4 });
}

#[test]
fn wrap_off_bottom_edge() {
    let bounds = Bounds { columns: 10, rows: 10 };
    let mut p = Position { x: 2, y: 9 };
    move_wrap(&mut p, &bounds, (0, 1));
    assert_eq!(p, Position { x: 2, y: 0 });
}

#[test]
fn result_always_in_bounds() {
    let bounds = Bounds { columns: 7, rows: 5 };
    let deltas = [
        (0, 0),
        (1, 0),
        (-1, 0),
        (0, 1),
        (0, -1),
        (100, -100),
        (-1000, 1000),
        (i32::MIN, i32::MAX),
        (i32::MAX, i32::MIN),
    ];
    for &(dx, dy) in deltas.iter() {
        for x in 0..7 {
            for y in 0..5 {
                let mut p = Position { x, y };
                move_wrap(&mut p, &bounds, (dx, dy));
                assert!(0 <= p.x && p.x < 7, "x out of bounds: {}", p.x);
                assert!(0 <= p.y && p.y < 5, "y out of bounds: {}", p.y);
            }
        }
    }
}

#[test]
fn wrap_matches_euclidean_modulo() {
    let bounds = Bounds { columns: 6, rows: 4 };
    let mut p = Position { x: 1, y: 1 };
    move_wrap(&mut p, &bounds, (-13, -9));
    // (1 - 13) mod 6 == 0, (1 - 9) mod 4 == 0
    assert_eq!(p, Position { x: 0, y: 0 });
}
