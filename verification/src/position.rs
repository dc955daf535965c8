//! The cell that the token stands on, and the moves that carry it to another.

use vstd::prelude::*;
use crate::decimal::{decimal, format_u32, parse_decimal, parse_reads_decimal, parse_u32};
use crate::grid::GridConfig;
use crate::text::token_text;

verus! {

/// One of the four ways to move by one cell.
#[derive(Clone, Copy, Debug, PartialEq, Eq, Structural)]
pub enum Direction {
    Right,
    Left,
    Down,
    Up,
}

/// A cell, by its row and its column, both counted from zero.
#[derive(Clone, Copy, Debug, PartialEq, Eq, Structural)]
pub struct Position {
    pub row: u32,
    pub column: u32,
}

/// The coordinate that a token stands for along an axis of `bound` cells. A
/// missing token and one that is no number give zero; a number that is no
/// index of the axis gives the last index.
pub open spec fn coordinate(token: Option<Seq<char>>, bound: u32) -> u32
    recommends
        bound >= 1,
{
    match token {
        Some(text) => match parse_decimal(text) {
            Some(n) => if n >= bound {
                (bound - 1) as u32
            } else {
                n
            },
            None => 0,
        },
        None => 0,
    }
}

/// The index after `index` on an axis of `bound` cells: the first one after
/// the last one, and also after the largest index that can be held.
pub open spec fn next_index(index: u32, bound: u32) -> u32
    recommends
        bound >= 1,
{
    if index == bound - 1 || index == u32::MAX {
        0
    } else {
        (index + 1) as u32
    }
}

/// The index before `index` on an axis of `bound` cells: the last one before
/// the first one.
pub open spec fn previous_index(index: u32, bound: u32) -> u32
    recommends
        bound >= 1,
{
    if index == 0 {
        (bound - 1) as u32
    } else {
        (index - 1) as u32
    }
}

/// Reads one coordinate.
fn decode_coordinate(token: Option<&str>, bound: u32) -> (c: u32)
    requires
        bound >= 1,
    ensures
        c == coordinate(token_text(token), bound),
{
    match token {
        Some(text) => match parse_u32(text) {
            Some(n) => if n >= bound {
                bound - 1
            } else {
                n
            },
            None => 0,
        },
        None => 0,
    }
}

/// Steps forward along one axis.
fn advance(index: u32, bound: u32) -> (next: u32)
    requires
        bound >= 1,
    ensures
        next == next_index(index, bound),
{
    if index == bound - 1 || index == u32::MAX {
        0
    } else {
        index + 1
    }
}

/// Steps backward along one axis.
fn retreat(index: u32, bound: u32) -> (previous: u32)
    requires
        bound >= 1,
    ensures
        previous == previous_index(index, bound),
{
    if index == 0 {
        bound - 1
    } else {
        index - 1
    }
}

impl Direction {
    /// The direction that undoes this one.
    pub open spec fn opposite(self) -> Direction {
        match self {
            Direction::Right => Direction::Left,
            Direction::Left => Direction::Right,
            Direction::Down => Direction::Up,
            Direction::Up => Direction::Down,
        }
    }
}

impl Position {
    /// The cell lies on the grid.
    pub open spec fn within(self, grid: GridConfig) -> bool {
        self.row < grid.rows && self.column < grid.columns
    }

    /// The cell that a pair of tokens stands for on a grid.
    pub open spec fn decoded(
        raw_row: Option<Seq<char>>,
        raw_column: Option<Seq<char>>,
        grid: GridConfig,
    ) -> Self {
        Position {
            row: coordinate(raw_row, grid.rows),
            column: coordinate(raw_column, grid.columns),
        }
    }

    /// The pair of tokens that writes the cell.
    pub open spec fn encoded(self) -> (Seq<char>, Seq<char>) {
        (decimal(self.row as nat), decimal(self.column as nat))
    }

    /// The cell one step away in a direction. A step touches one axis only
    /// and wraps around at either end of it.
    pub open spec fn moved(self, direction: Direction, grid: GridConfig) -> Self {
        match direction {
            Direction::Right => Position {
                row: self.row,
                column: next_index(self.column, grid.columns),
            },
            Direction::Left => Position {
                row: self.row,
                column: previous_index(self.column, grid.columns),
            },
            Direction::Down => Position {
                row: next_index(self.row, grid.rows),
                column: self.column,
            },
            Direction::Up => Position {
                row: previous_index(self.row, grid.rows),
                column: self.column,
            },
        }
    }

    /// The cell reached by `times` steps in one direction.
    pub open spec fn moved_times(self, direction: Direction, grid: GridConfig, times: nat) -> Self
        decreases times,
    {
        if times == 0 {
            self
        } else {
            self.moved_times(direction, grid, (times - 1) as nat).moved(direction, grid)
        }
    }

    /// Reads the cell from its two tokens. Never fails: whatever the tokens
    /// hold, the cell that comes out lies on the grid.
    pub fn decode(raw_row: Option<&str>, raw_column: Option<&str>, grid: GridConfig) -> (position:
        Self)
        requires
            grid.has_cells(),
        ensures
            position == Self::decoded(token_text(raw_row), token_text(raw_column), grid),
            position.within(grid),
    {
        Position {
            row: decode_coordinate(raw_row, grid.rows),
            column: decode_coordinate(raw_column, grid.columns),
        }
    }

    /// Writes the cell as two decimal tokens, row first.
    pub fn encode(&self) -> (tokens: (String, String))
        ensures
            (tokens.0@, tokens.1@) == self.encoded(),
    {
        (format_u32(self.row), format_u32(self.column))
    }

    /// Moves by one cell in a direction. The grid has to have a cell along
    /// the axis of the move.
    pub fn step(self, direction: Direction, grid: GridConfig) -> (position: Self)
        requires
            grid.extent(direction) >= 1,
        ensures
            position == self.moved(direction, grid),
            self.within(grid) ==> position.within(grid),
    {
        match direction {
            Direction::Right => Position {
                row: self.row,
                column: advance(self.column, grid.columns),
            },
            Direction::Left => Position {
                row: self.row,
                column: retreat(self.column, grid.columns),
            },
            Direction::Down => Position { row: advance(self.row, grid.rows), column: self.column },
            Direction::Up => Position { row: retreat(self.row, grid.rows), column: self.column },
        }
    }

    /// Jumps to the given cell, taken as it is: nothing holds it to a grid.
    pub fn teleport(target_row: u32, target_column: u32) -> (position: Self)
        ensures
            position == (Position { row: target_row, column: target_column }),
    {
        Position { row: target_row, column: target_column }
    }

    /// Goes back to the first cell.
    pub fn reset() -> (position: Self)
        ensures
            position == (Position { row: 0, column: 0 }),
    {
        Position { row: 0, column: 0 }
    }
}

/// The index reached from `index` by `times` steps forward on an axis of
/// `bound` cells, for an index of the axis and no more steps than it has
/// cells.
pub open spec fn index_forward(index: u32, bound: u32, times: nat) -> u32
    recommends
        index < bound,
        times <= bound,
{
    if index + times < bound {
        (index + times) as u32
    } else {
        (index + times - bound) as u32
    }
}

/// The index reached from `index` by `times` steps backward on an axis of
/// `bound` cells, for an index of the axis and no more steps than it has
/// cells.
pub open spec fn index_backward(index: u32, bound: u32, times: nat) -> u32
    recommends
        index < bound,
        times <= bound,
{
    if times <= index {
        (index - times) as u32
    } else {
        (index + bound - times) as u32
    }
}

/// Where a cell of the grid is after at most one turn's worth of steps in one
/// direction: only the index along that axis has changed, and it is the one
/// that many places further on, counted around the axis.
pub proof fn steps_add_up(position: Position, direction: Direction, grid: GridConfig, times: nat)
    requires
        grid.has_cells(),
        position.within(grid),
        times <= grid.extent(direction),
    ensures
        direction == Direction::Right ==> position.moved_times(direction, grid, times) == (Position {
            row: position.row,
            column: index_forward(position.column, grid.columns, times),
        }),
        direction == Direction::Left ==> position.moved_times(direction, grid, times) == (Position {
            row: position.row,
            column: index_backward(position.column, grid.columns, times),
        }),
        direction == Direction::Down ==> position.moved_times(direction, grid, times) == (Position {
            row: index_forward(position.row, grid.rows, times),
            column: position.column,
        }),
        direction == Direction::Up ==> position.moved_times(direction, grid, times) == (Position {
            row: index_backward(position.row, grid.rows, times),
            column: position.column,
        }),
    decreases times,
{
    if times > 0 {
        steps_add_up(position, direction, grid, (times - 1) as nat);
    }
}

/// As many steps in one direction as the grid has cells along that axis bring
/// a cell of the grid back to where it was.
pub proof fn full_turn_returns(position: Position, direction: Direction, grid: GridConfig)
    requires
        grid.has_cells(),
        position.within(grid),
    ensures
        position.moved_times(direction, grid, grid.extent(direction) as nat) == position,
{
    steps_add_up(position, direction, grid, grid.extent(direction) as nat);
}

/// A step and then a step in the opposite direction leave a cell of the grid
/// where it was.
pub proof fn step_and_back(position: Position, direction: Direction, grid: GridConfig)
    requires
        grid.has_cells(),
        position.within(grid),
    ensures
        position.moved(direction, grid).moved(direction.opposite(), grid) == position,
{
}

/// A step right and then a step left leave the token where it was, also off
/// the grid, as long as its column is not the largest that can be held.
pub proof fn right_then_left(position: Position, grid: GridConfig)
    requires
        grid.columns >= 1,
        position.column < u32::MAX,
    ensures
        position.moved(Direction::Right, grid).moved(Direction::Left, grid) == position,
{
}

/// A step down and then a step up leave the token where it was, also off the
/// grid, as long as its row is not the largest that can be held.
pub proof fn down_then_up(position: Position, grid: GridConfig)
    requires
        grid.rows >= 1,
        position.row < u32::MAX,
    ensures
        position.moved(Direction::Down, grid).moved(Direction::Up, grid) == position,
{
}

/// A cell of the grid survives being written and read back.
pub proof fn position_round_trip(position: Position, grid: GridConfig)
    requires
        position.within(grid),
    ensures
        Position::decoded(Some(position.encoded().0), Some(position.encoded().1), grid)
            == position,
{
    parse_reads_decimal(position.row);
    parse_reads_decimal(position.column);
}

} // verus!
