//! One request: the state is read from the slots, an action is applied to
//! it, and the new state is written back.

use vstd::prelude::*;
use crate::grid::GridConfig;
use crate::position::{Direction, Position};
use crate::script::{
    command_lines,
    reaches_teleport,
    run,
    run_spec,
    ScriptError,
    ScriptErrorView,
};
use crate::state::{State, Tokens, TokensView};

verus! {

/// What a request asks for.
#[derive(Debug)]
pub enum Action {
    /// Show the state as it is.
    Show,
    /// Put the token back on the first cell.
    Reset,
    /// Move the token by one cell.
    Move(Direction),
    /// Put the token on the given cell.
    Teleport { row: u32, column: u32 },
    /// Give the grid new dimensions.
    Resize { rows: u32, columns: u32 },
    /// Replay a script.
    Run(String),
}

/// What a request answers: the new state, and the slots that write it.
#[derive(Debug)]
pub struct Reply {
    pub state: State,
    pub tokens: Tokens,
}

/// The state that an action leads to, or the error that a script ends with.
/// Only a move and a script look at the grid; a teleport and a resize take
/// their numbers as they are, and a resize puts the token back on the first
/// cell.
pub open spec fn outcome(state: State, action: Action) -> Result<State, ScriptErrorView> {
    match action {
        Action::Show => Ok(state),
        Action::Reset => Ok(State { grid: state.grid, position: Position { row: 0, column: 0 } }),
        Action::Move(direction) => Ok(
            State { grid: state.grid, position: state.position.moved(direction, state.grid) },
        ),
        Action::Teleport { row, column } => Ok(
            State { grid: state.grid, position: Position { row, column } },
        ),
        Action::Resize { rows, columns } => Ok(
            State { grid: GridConfig { rows, columns }, position: Position { row: 0, column: 0 } },
        ),
        Action::Run(script) => match run_spec(script@, state.grid, state.position) {
            Ok(position) => Ok(State { grid: state.grid, position }),
            Err(error) => Err(error),
        },
    }
}

/// The state has what the action needs: a move wants a cell along its axis,
/// and a script a grid with at least one cell.
pub open spec fn fits(state: State, action: Action) -> bool {
    match action {
        Action::Move(direction) => state.grid.extent(direction) >= 1,
        Action::Run(_) => state.grid.has_cells(),
        _ => true,
    }
}

/// The action is a script in which the `regex` crate has a say: one whose
/// replay from the state comes to a teleport line.
pub open spec fn searches(state: State, action: Action) -> bool {
    match action {
        Action::Run(script) => reaches_teleport(
            command_lines(script@),
            state.grid,
            state.position,
        ),
        _ => false,
    }
}

/// An outcome with its error, if any, taken by its view.
pub open spec fn state_result_view(r: Result<State, ScriptError>) -> Result<
    State,
    ScriptErrorView,
> {
    match r {
        Ok(state) => Ok(state),
        Err(error) => Err(error@),
    }
}

/// A reply with its slots and its error, if any, taken by their views.
pub open spec fn reply_view(r: Result<Reply, ScriptError>) -> Result<
    (State, TokensView),
    ScriptErrorView,
> {
    match r {
        Ok(reply) => Ok((reply.state, reply.tokens@)),
        Err(error) => Err(error@),
    }
}

/// The reply to a request with the given slots, or the error that its
/// script ends with.
pub open spec fn answer(tokens: TokensView, action: Action) -> Result<
    (State, TokensView),
    ScriptErrorView,
> {
    match outcome(State::decoded(tokens), action) {
        Ok(state) => Ok((state, state.encoded())),
        Err(error) => Err(error),
    }
}

/// Applies an action to a state. A script that fails leaves no state behind:
/// only its error comes back.
///
/// Should the `regex` crate refuse the teleport pattern, a script ends as
/// malformed at the first teleport line that its replay comes to.
pub fn apply(state: State, action: &Action) -> (r: Result<State, ScriptError>)
    requires
        fits(state, *action),
    ensures
        state_result_view(r) == outcome(state, *action) || (searches(state, *action)
            && state_result_view(r) == Err::<State, ScriptErrorView>(
            ScriptErrorView::MalformedTeleportCommand,
        )),
{
    match action {
        Action::Show => Ok(state),
        Action::Reset => Ok(State { grid: state.grid, position: Position::reset() }),
        Action::Move(direction) => Ok(
            State { grid: state.grid, position: state.position.step(*direction, state.grid) },
        ),
        Action::Teleport { row, column } => Ok(
            State { grid: state.grid, position: Position::teleport(*row, *column) },
        ),
        Action::Resize { rows, columns } => {
            let (grid, position) = GridConfig::resize(*rows, *columns);
            Ok(State { grid, position })
        },
        Action::Run(script) => match run(script.as_str(), state.grid, state.position) {
            Ok(position) => Ok(State { grid: state.grid, position }),
            Err(error) => Err(error),
        },
    }
}

/// Serves one request: reads the state from the slots, applies the action,
/// and writes the new state into slots of its own.
///
/// Should the `regex` crate refuse the teleport pattern, a script ends as
/// malformed at the first teleport line that its replay comes to.
pub fn handle(tokens: &Tokens, action: &Action) -> (r: Result<Reply, ScriptError>)
    ensures
        reply_view(r) == answer(tokens@, *action) || (searches(State::decoded(tokens@), *action)
            && reply_view(r) == Err::<(State, TokensView), ScriptErrorView>(
            ScriptErrorView::MalformedTeleportCommand,
        )),
{
    match apply(State::decode(tokens), action) {
        Ok(state) => Ok(Reply { state, tokens: state.encode() }),
        Err(error) => Err(error),
    }
}

} // verus!
