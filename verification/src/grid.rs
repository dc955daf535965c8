//! The dimensions of the grid: their bounds, their defaults, and how they are
//! read from and written to text tokens.

use vstd::prelude::*;
use crate::decimal::{decimal, format_u32, parse_decimal, parse_reads_decimal, parse_u32};
use crate::position::{Direction, Position};
use crate::text::token_text;

verus! {

/// The number of rows of a grid whose token is missing or unusable.
pub const DEFAULT_ROWS: u32 = 5;

/// The number of columns of a grid whose token is missing or unusable.
pub const DEFAULT_COLUMNS: u32 = 5;

/// The largest number of rows that a token can ask for.
pub const ROWS_MAX: u32 = 20;

/// The largest number of columns that a token can ask for.
pub const COLUMNS_MAX: u32 = 20;

/// The dimensions of the grid.
#[derive(Clone, Copy, Debug, PartialEq, Eq, Structural)]
pub struct GridConfig {
    pub rows: u32,
    pub columns: u32,
}

/// The dimension that a token stands for. A missing token, one that is no
/// number and one that asks for no cells at all give the default; a number
/// above the largest allowed gives the largest allowed.
pub open spec fn dimension(token: Option<Seq<char>>, default: u32, largest: u32) -> u32 {
    match token {
        Some(text) => match parse_decimal(text) {
            Some(n) => if n == 0 {
                default
            } else if n > largest {
                largest
            } else {
                n
            },
            None => default,
        },
        None => default,
    }
}

/// Reads one dimension.
fn decode_dimension(token: Option<&str>, default: u32, largest: u32) -> (d: u32)
    ensures
        d == dimension(token_text(token), default, largest),
{
    match token {
        Some(text) => match parse_u32(text) {
            Some(n) => if n == 0 {
                default
            } else if n > largest {
                largest
            } else {
                n
            },
            None => default,
        },
        None => default,
    }
}

impl GridConfig {
    /// Both dimensions lie between one and the largest allowed.
    pub open spec fn wf(self) -> bool {
        &&& 1 <= self.rows <= ROWS_MAX
        &&& 1 <= self.columns <= COLUMNS_MAX
    }

    /// The grid has at least one cell.
    pub open spec fn has_cells(self) -> bool {
        self.rows >= 1 && self.columns >= 1
    }

    /// The number of cells along the axis of a direction.
    pub open spec fn extent(self, direction: Direction) -> u32 {
        match direction {
            Direction::Right | Direction::Left => self.columns,
            Direction::Down | Direction::Up => self.rows,
        }
    }

    /// The grid that a pair of tokens stands for.
    pub open spec fn decoded(raw_rows: Option<Seq<char>>, raw_columns: Option<Seq<char>>) -> Self {
        GridConfig {
            rows: dimension(raw_rows, DEFAULT_ROWS, ROWS_MAX),
            columns: dimension(raw_columns, DEFAULT_COLUMNS, COLUMNS_MAX),
        }
    }

    /// The pair of tokens that writes the grid.
    pub open spec fn encoded(self) -> (Seq<char>, Seq<char>) {
        (decimal(self.rows as nat), decimal(self.columns as nat))
    }

    /// Reads the grid from its two tokens. Never fails: whatever the tokens
    /// hold, the grid that comes out is well formed.
    pub fn decode(raw_rows: Option<&str>, raw_columns: Option<&str>) -> (grid: Self)
        ensures
            grid == Self::decoded(token_text(raw_rows), token_text(raw_columns)),
            grid.wf(),
    {
        GridConfig {
            rows: decode_dimension(raw_rows, DEFAULT_ROWS, ROWS_MAX),
            columns: decode_dimension(raw_columns, DEFAULT_COLUMNS, COLUMNS_MAX),
        }
    }

    /// Writes the grid as two decimal tokens, rows first.
    pub fn encode(&self) -> (tokens: (String, String))
        ensures
            (tokens.0@, tokens.1@) == self.encoded(),
    {
        (format_u32(self.rows), format_u32(self.columns))
    }

    /// Replaces the grid by one of the given dimensions, taken as they are,
    /// and puts the token back on the first cell.
    pub fn resize(new_rows: u32, new_columns: u32) -> (state: (Self, Position))
        ensures
            state.0 == (GridConfig { rows: new_rows, columns: new_columns }),
            state.1 == (Position { row: 0, column: 0 }),
    {
        (GridConfig { rows: new_rows, columns: new_columns }, Position::reset())
    }
}

impl Default for GridConfig {
    fn default() -> (grid: Self)
        ensures
            grid == (GridConfig { rows: DEFAULT_ROWS, columns: DEFAULT_COLUMNS }),
            grid.wf(),
    {
        GridConfig { rows: DEFAULT_ROWS, columns: DEFAULT_COLUMNS }
    }
}

/// A well-formed grid survives being written and read back, and the grid
/// read back is written as it was before.
pub proof fn grid_round_trip(grid: GridConfig)
    requires
        grid.wf(),
    ensures
        GridConfig::decoded(Some(grid.encoded().0), Some(grid.encoded().1)) == grid,
        GridConfig::decoded(Some(grid.encoded().0), Some(grid.encoded().1)).encoded()
            == grid.encoded(),
{
    parse_reads_decimal(grid.rows);
    parse_reads_decimal(grid.columns);
}

} // verus!
