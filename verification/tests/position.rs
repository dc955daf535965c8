use rustbot::grid::GridConfig;
use rustbot::position::{Direction, Position};

const FIVE: GridConfig = GridConfig { rows: 5, columns: 5 };

#[test]
fn missing_tokens_give_the_first_cell() {
    assert_eq!(Position::decode(None, None, FIVE), Position { row: 0, column: 0 });
    assert_eq!(Position::decode(Some("3"), None, FIVE), Position { row: 3, column: 0 });
    assert_eq!(Position::decode(None, Some("4"), FIVE), Position { row: 0, column: 4 });
}

#[test]
fn unusable_tokens_give_zero() {
    for raw in ["", "x", "-1", "1.0", " 1", "4294967296"] {
        assert_eq!(
            Position::decode(Some(raw), Some(raw), FIVE),
            Position { row: 0, column: 0 },
            "token {raw:?}"
        );
    }
}

#[test]
fn tokens_off_the_grid_are_clamped_to_the_last_cell() {
    let grid = GridConfig { rows: 4, columns: 7 };
    assert_eq!(Position::decode(Some("4"), Some("7"), grid), Position { row: 3, column: 6 });
    assert_eq!(Position::decode(Some("100"), Some("4294967295"), grid), Position { row: 3, column: 6 });
    assert_eq!(Position::decode(Some("3"), Some("6"), grid), Position { row: 3, column: 6 });
    assert_eq!(Position::decode(Some("2"), Some("+5"), grid), Position { row: 2, column: 5 });
}

#[test]
fn decode_on_a_single_cell_grid_gives_that_cell() {
    let grid = GridConfig { rows: 1, columns: 1 };
    assert_eq!(Position::decode(Some("9"), Some("0"), grid), Position { row: 0, column: 0 });
}

#[test]
fn encode_writes_row_then_column() {
    assert_eq!(Position { row: 1, column: 12 }.encode(), ("1".to_string(), "12".to_string()));
}

#[test]
fn right_adds_one_to_the_column_and_wraps() {
    assert_eq!(Position { row: 2, column: 0 }.step(Direction::Right, FIVE), Position { row: 2, column: 1 });
    assert_eq!(Position { row: 2, column: 3 }.step(Direction::Right, FIVE), Position { row: 2, column: 4 });
    assert_eq!(Position { row: 2, column: 4 }.step(Direction::Right, FIVE), Position { row: 2, column: 0 });
}

#[test]
fn left_takes_one_from_the_column_and_wraps() {
    assert_eq!(Position { row: 2, column: 4 }.step(Direction::Left, FIVE), Position { row: 2, column: 3 });
    assert_eq!(Position { row: 2, column: 0 }.step(Direction::Left, FIVE), Position { row: 2, column: 4 });
}

#[test]
fn down_adds_one_to_the_row_and_wraps() {
    assert_eq!(Position { row: 0, column: 1 }.step(Direction::Down, FIVE), Position { row: 1, column: 1 });
    assert_eq!(Position { row: 4, column: 1 }.step(Direction::Down, FIVE), Position { row: 0, column: 1 });
}

#[test]
fn up_takes_one_from_the_row_and_wraps() {
    assert_eq!(Position { row: 3, column: 1 }.step(Direction::Up, FIVE), Position { row: 2, column: 1 });
    assert_eq!(Position { row: 0, column: 1 }.step(Direction::Up, FIVE), Position { row: 4, column: 1 });
}

#[test]
fn steps_use_the_bound_of_their_own_axis() {
    let grid = GridConfig { rows: 2, columns: 9 };
    assert_eq!(Position { row: 1, column: 8 }.step(Direction::Down, grid), Position { row: 0, column: 8 });
    assert_eq!(Position { row: 1, column: 8 }.step(Direction::Right, grid), Position { row: 1, column: 0 });
    assert_eq!(Position { row: 0, column: 0 }.step(Direction::Up, grid), Position { row: 1, column: 0 });
    assert_eq!(Position { row: 0, column: 0 }.step(Direction::Left, grid), Position { row: 0, column: 8 });
}

#[test]
fn a_step_off_the_grid_goes_on_from_where_the_token_is() {
    assert_eq!(Position { row: 9, column: 9 }.step(Direction::Right, FIVE), Position { row: 9, column: 10 });
    assert_eq!(Position { row: 9, column: 9 }.step(Direction::Up, FIVE), Position { row: 8, column: 9 });
}

#[test]
fn a_step_past_the_largest_index_gives_the_first() {
    let far = Position { row: u32::MAX, column: u32::MAX };
    assert_eq!(far.step(Direction::Right, FIVE), Position { row: u32::MAX, column: 0 });
    assert_eq!(far.step(Direction::Down, FIVE), Position { row: 0, column: u32::MAX });
}

#[test]
fn a_full_turn_returns_to_the_start() {
    let grid = GridConfig { rows: 3, columns: 7 };
    for row in 0..3u32 {
        for column in 0..7u32 {
            let start = Position { row, column };
            for (direction, times) in [
                (Direction::Right, 7),
                (Direction::Left, 7),
                (Direction::Down, 3),
                (Direction::Up, 3),
            ] {
                let mut position = start;
                for _ in 0..times {
                    position = position.step(direction, grid);
                }
                assert_eq!(position, start);
            }
        }
    }
}

#[test]
fn a_step_and_a_step_back_cancel() {
    let grid = GridConfig { rows: 4, columns: 6 };
    for row in 0..4u32 {
        for column in 0..6u32 {
            let start = Position { row, column };
            assert_eq!(start.step(Direction::Right, grid).step(Direction::Left, grid), start);
            assert_eq!(start.step(Direction::Left, grid).step(Direction::Right, grid), start);
            assert_eq!(start.step(Direction::Down, grid).step(Direction::Up, grid), start);
            assert_eq!(start.step(Direction::Up, grid).step(Direction::Down, grid), start);
        }
    }
}

#[test]
fn reset_gives_the_first_cell() {
    assert_eq!(Position::reset(), Position { row: 0, column: 0 });
}

#[test]
fn teleport_takes_the_cell_as_it_is() {
    assert_eq!(Position::teleport(3, 4), Position { row: 3, column: 4 });
    assert_eq!(Position::teleport(4000, u32::MAX), Position { row: 4000, column: u32::MAX });
}
