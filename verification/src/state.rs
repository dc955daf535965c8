//! The whole state, a grid and the cell of the token on it, and the four
//! named text slots in which it travels.

use vstd::prelude::*;
use crate::grid::{grid_round_trip, GridConfig};
use crate::position::{position_round_trip, Position};
use crate::text::token_text;

verus! {

/// The name of the slot that holds the row of the token.
pub const SLOT_ROW: &'static str = "i";

/// The name of the slot that holds the column of the token.
pub const SLOT_COLUMN: &'static str = "j";

/// The name of the slot that holds the number of rows of the grid.
pub const SLOT_ROWS: &'static str = "max-i";

/// The name of the slot that holds the number of columns of the grid.
pub const SLOT_COLUMNS: &'static str = "max-j";

/// The path under which the four slots are kept, so that one set of them
/// serves every page.
pub const SLOT_PATH: &'static str = "/";

/// What the four slots hold, each one if it is there.
#[derive(Debug)]
pub struct Tokens {
    /// Under `i`: the row of the token.
    pub i: Option<String>,
    /// Under `j`: the column of the token.
    pub j: Option<String>,
    /// Under `max-i`: the number of rows.
    pub max_i: Option<String>,
    /// Under `max-j`: the number of columns.
    pub max_j: Option<String>,
}

/// `Tokens` with each text as a sequence of characters.
pub struct TokensView {
    pub i: Option<Seq<char>>,
    pub j: Option<Seq<char>>,
    pub max_i: Option<Seq<char>>,
    pub max_j: Option<Seq<char>>,
}

/// What an optional owned text holds, as a sequence of characters.
pub open spec fn slot_text(slot: Option<String>) -> Option<Seq<char>> {
    match slot {
        Some(text) => Some(text@),
        None => None,
    }
}

impl View for Tokens {
    type V = TokensView;

    open spec fn view(&self) -> TokensView {
        TokensView {
            i: slot_text(self.i),
            j: slot_text(self.j),
            max_i: slot_text(self.max_i),
            max_j: slot_text(self.max_j),
        }
    }
}

/// A grid and the cell of the token.
#[derive(Clone, Copy, Debug, PartialEq, Eq, Structural)]
pub struct State {
    pub grid: GridConfig,
    pub position: Position,
}

/// Borrows the text of a slot.
fn slot_token(slot: &Option<String>) -> (token: Option<&str>)
    ensures
        token_text(token) == slot_text(*slot),
{
    match slot {
        Some(text) => Some(text.as_str()),
        None => None,
    }
}

impl State {
    /// The grid is well formed and the token stands on it.
    pub open spec fn wf(self) -> bool {
        self.grid.wf() && self.position.within(self.grid)
    }

    /// The state that the slots stand for: the grid is read first, since it
    /// bounds the cell.
    pub open spec fn decoded(tokens: TokensView) -> Self {
        let grid = GridConfig::decoded(tokens.max_i, tokens.max_j);
        State { grid, position: Position::decoded(tokens.i, tokens.j, grid) }
    }

    /// The slots that write the state: all four, in decimal.
    pub open spec fn encoded(self) -> TokensView {
        TokensView {
            i: Some(self.position.encoded().0),
            j: Some(self.position.encoded().1),
            max_i: Some(self.grid.encoded().0),
            max_j: Some(self.grid.encoded().1),
        }
    }

    /// Reads the state from the slots. Never fails: a slot that is missing
    /// or unusable gives its default, and one that is too large is clamped.
    pub fn decode(tokens: &Tokens) -> (state: Self)
        ensures
            state == Self::decoded(tokens@),
            state.wf(),
    {
        let grid = GridConfig::decode(slot_token(&tokens.max_i), slot_token(&tokens.max_j));
        let position = Position::decode(slot_token(&tokens.i), slot_token(&tokens.j), grid);
        State { grid, position }
    }

    /// Writes the state into the slots, always all four of them.
    pub fn encode(&self) -> (tokens: Tokens)
        ensures
            tokens@ == self.encoded(),
    {
        let (i, j) = self.position.encode();
        let (max_i, max_j) = self.grid.encode();
        Tokens { i: Some(i), j: Some(j), max_i: Some(max_i), max_j: Some(max_j) }
    }
}

/// A well-formed state survives being written and read back.
pub proof fn state_round_trip(state: State)
    requires
        state.wf(),
    ensures
        State::decoded(state.encoded()) == state,
{
    grid_round_trip(state.grid);
    position_round_trip(state.position, state.grid);
}

} // verus!
