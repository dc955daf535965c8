//! The interpreter: a script is a text of lines, each of which names a move
//! or a teleport, and replaying it carries the token from cell to cell.

use vstd::prelude::*;
use crate::decimal::{parse_decimal, parse_u32};
use crate::grid::GridConfig;
use crate::pattern::{captures, regex_captures};
use crate::position::{Direction, Position};
use crate::text::{
    chars_of,
    contains,
    has_substring,
    line_end,
    line_len,
    text_of,
    trim,
    trim_bounds,
};

verus! {

/// The regular expression that a teleport line has to match: the words `go to`,
/// then in round brackets the row and the column, in digits, with a semicolon
/// between them that may have one space on either side.
pub const TELEPORT_PATTERN: &'static str = r"go to \(([0-9]+) ?; ?([0-9]+)\)";

/// What a line of a script asks for.
#[derive(Clone, Copy, Debug, PartialEq, Eq, Structural)]
pub enum Command {
    /// One step in a direction.
    Move(Direction),
    /// A teleport to a cell that the line names.
    Teleport,
}

/// Why a script could not be replayed.
#[derive(Debug, PartialEq, Eq)]
pub enum ScriptError {
    /// A line holds `go to` but names no cell in the form that a teleport
    /// takes.
    MalformedTeleportCommand,
    /// A line names no command at all. It is handed back, trimmed.
    UnknownCommand(String),
}

/// A `ScriptError` with its line as a sequence of characters.
pub enum ScriptErrorView {
    MalformedTeleportCommand,
    UnknownCommand(Seq<char>),
}

impl View for ScriptError {
    type V = ScriptErrorView;

    open spec fn view(&self) -> ScriptErrorView {
        match self {
            ScriptError::MalformedTeleportCommand => ScriptErrorView::MalformedTeleportCommand,
            ScriptError::UnknownCommand(line) => ScriptErrorView::UnknownCommand(line@),
        }
    }
}

/// An outcome with its error, if any, taken by its view.
pub open spec fn result_view(r: Result<Position, ScriptError>) -> Result<
    Position,
    ScriptErrorView,
> {
    match r {
        Ok(position) => Ok(position),
        Err(error) => Err(error@),
    }
}

/// The command that a line names: the first of `right`, `left`, `down`, `up`
/// and `go to`, in this order, that occurs anywhere in it.
pub open spec fn classify_spec(line: Seq<char>) -> Option<Command> {
    if has_substring(line, "right"@) {
        Some(Command::Move(Direction::Right))
    } else if has_substring(line, "left"@) {
        Some(Command::Move(Direction::Left))
    } else if has_substring(line, "down"@) {
        Some(Command::Move(Direction::Down))
    } else if has_substring(line, "up"@) {
        Some(Command::Move(Direction::Up))
    } else if has_substring(line, "go to"@) {
        Some(Command::Teleport)
    } else {
        None
    }
}

/// The number that a capture group holds, if the group is there, took part
/// in the match and holds a number.
pub open spec fn group_number(groups: Seq<Option<Seq<char>>>, index: int) -> Option<u32> {
    if 0 <= index < groups.len() {
        match groups[index] {
            Some(text) => parse_decimal(text),
            None => None,
        }
    } else {
        None
    }
}

/// Where a teleport leads, given what the search for the teleport pattern
/// found: to the cell whose row is the number in the first group and whose
/// column is the number in the second. A line without a match, and one whose
/// groups hold no two numbers that fit, is malformed.
pub open spec fn teleport_spec(found: Option<Seq<Option<Seq<char>>>>) -> Result<
    Position,
    ScriptErrorView,
> {
    match found {
        Some(groups) => match (group_number(groups, 1), group_number(groups, 2)) {
            (Some(row), Some(column)) => Ok(Position { row, column }),
            _ => Err(ScriptErrorView::MalformedTeleportCommand),
        },
        None => Err(ScriptErrorView::MalformedTeleportCommand),
    }
}

/// What one line does to the token.
pub open spec fn apply_line_spec(line: Seq<char>, grid: GridConfig, position: Position) -> Result<
    Position,
    ScriptErrorView,
> {
    match classify_spec(line) {
        Some(Command::Move(direction)) => Ok(position.moved(direction, grid)),
        Some(Command::Teleport) => teleport_spec(regex_captures(TELEPORT_PATTERN@, line)),
        None => Err(ScriptErrorView::UnknownCommand(line)),
    }
}

/// The lines of a script that count: the text is cut at every line feed,
/// each piece is trimmed, and the pieces that are empty then are left out.
pub open spec fn command_lines(script: Seq<char>) -> Seq<Seq<char>>
    decreases script.len(),
{
    let n = line_len(script) as int;
    let line = trim(script.take(n));
    let head = if line.len() == 0 {
        Seq::<Seq<char>>::empty()
    } else {
        seq![line]
    };
    if n >= script.len() {
        head
    } else {
        head + command_lines(script.skip(n + 1))
    }
}

/// Replaying lines in order: each one starts where the one before it led,
/// and the first one that fails ends the replay with its error.
pub open spec fn replay(lines: Seq<Seq<char>>, grid: GridConfig, position: Position) -> Result<
    Position,
    ScriptErrorView,
>
    decreases lines.len(),
{
    if lines.len() == 0 {
        Ok(position)
    } else {
        match apply_line_spec(lines[0], grid, position) {
            Ok(next) => replay(lines.drop_first(), grid, next),
            Err(error) => Err(error),
        }
    }
}

/// Where a script leads from a starting cell, or the error that ends it.
pub open spec fn run_spec(script: Seq<char>, grid: GridConfig, start: Position) -> Result<
    Position,
    ScriptErrorView,
> {
    replay(command_lines(script), grid, start)
}

/// Replaying the lines comes to a teleport line: no line before the first
/// teleport line fails.
pub open spec fn reaches_teleport(
    lines: Seq<Seq<char>>,
    grid: GridConfig,
    position: Position,
) -> bool
    decreases lines.len(),
{
    if lines.len() == 0 {
        false
    } else if classify_spec(lines[0]) == Some(Command::Teleport) {
        true
    } else {
        match apply_line_spec(lines[0], grid, position) {
            Ok(next) => reaches_teleport(lines.drop_first(), grid, next),
            Err(_) => false,
        }
    }
}

/// The sentence that says what went wrong.
pub open spec fn message_spec(error: ScriptErrorView) -> Seq<char> {
    match error {
        ScriptErrorView::MalformedTeleportCommand => "Malformed teleport command"@,
        ScriptErrorView::UnknownCommand(line) => "Unknown command: "@ + line,
    }
}

impl ScriptError {
    /// A sentence that says what went wrong.
    pub fn message(&self) -> (text: String)
        ensures
            text@ == message_spec(self@),
    {
        match self {
            ScriptError::MalformedTeleportCommand => String::from_str("Malformed teleport command"),
            ScriptError::UnknownCommand(line) => String::from_str("Unknown command: ").concat(
                line.as_str(),
            ),
        }
    }
}

/// Names the command of a line.
pub fn classify(line: &str) -> (command: Option<Command>)
    ensures
        command == classify_spec(line@),
{
    let chars = chars_of(line);
    if contains(&chars, &chars_of("right")) {
        Some(Command::Move(Direction::Right))
    } else if contains(&chars, &chars_of("left")) {
        Some(Command::Move(Direction::Left))
    } else if contains(&chars, &chars_of("down")) {
        Some(Command::Move(Direction::Down))
    } else if contains(&chars, &chars_of("up")) {
        Some(Command::Move(Direction::Up))
    } else if contains(&chars, &chars_of("go to")) {
        Some(Command::Teleport)
    } else {
        None
    }
}

/// Reads the number in a capture group.
fn group_value(groups: &Vec<Option<String>>, index: usize) -> (number: Option<u32>)
    ensures
        number == group_number(groups.deep_view(), index as int),
{
    if index < groups.len() {
        match &groups[index] {
            Some(text) => parse_u32(text.as_str()),
            None => None,
        }
    } else {
        None
    }
}

/// Turns what the search for the teleport pattern found on a line into the
/// cell to go to. The cell is taken as it is: nothing holds it to a grid.
pub fn teleport_target(found: &Option<Vec<Option<String>>>) -> (r: Result<Position, ScriptError>)
    ensures
        result_view(r) == teleport_spec(found.deep_view()),
{
    match found {
        Some(groups) => match (group_value(groups, 1), group_value(groups, 2)) {
            (Some(row), Some(column)) => Ok(Position::teleport(row, column)),
            _ => Err(ScriptError::MalformedTeleportCommand),
        },
        None => Err(ScriptError::MalformedTeleportCommand),
    }
}

/// Applies one line to the token. The line is taken as it is, neither
/// trimmed nor cut.
///
/// A teleport line is searched for the teleport pattern by the `regex`
/// crate. Should the crate refuse the pattern, the line is reported as
/// malformed.
pub fn apply_line(line: &str, grid: GridConfig, position: Position) -> (r: Result<
    Position,
    ScriptError,
>)
    requires
        grid.has_cells(),
    ensures
        result_view(r) == apply_line_spec(line@, grid, position) || (classify_spec(line@) == Some(
            Command::Teleport,
        ) && result_view(r) == Err::<Position, ScriptErrorView>(
            ScriptErrorView::MalformedTeleportCommand,
        )),
{
    match classify(line) {
        Some(Command::Move(direction)) => Ok(position.step(direction, grid)),
        Some(Command::Teleport) => match captures(TELEPORT_PATTERN, line) {
            Ok(found) => teleport_target(&found),
            Err(_) => Err(ScriptError::MalformedTeleportCommand),
        },
        None => Err(ScriptError::UnknownCommand(line.to_owned())),
    }
}

/// Replays a script from a starting cell and returns the cell it leads to.
/// The first line that fails ends the replay with its error, and no cell is
/// returned.
///
/// Teleport lines are searched by the `regex` crate. Should the crate refuse
/// the teleport pattern, the first teleport line that the replay comes to is
/// reported as malformed; a replay that comes to none is exact.
pub fn run(script: &str, grid: GridConfig, start: Position) -> (r: Result<Position, ScriptError>)
    requires
        grid.has_cells(),
    ensures
        result_view(r) == run_spec(script@, grid, start) || (reaches_teleport(
            command_lines(script@),
            grid,
            start,
        ) && result_view(r) == Err::<Position, ScriptErrorView>(
            ScriptErrorView::MalformedTeleportCommand,
        )),
{
    let chars = chars_of(script);
    let mut position = start;
    let mut begin: usize = 0;
    assert(chars@.skip(0) =~= script@);
    loop
        invariant
            chars@ == script@,
            grid.has_cells(),
            begin <= chars.len(),
            run_spec(script@, grid, start) == replay(
                command_lines(chars@.skip(begin as int)),
                grid,
                position,
            ),
            reaches_teleport(command_lines(chars@.skip(begin as int)), grid, position)
                ==> reaches_teleport(command_lines(script@), grid, start),
        decreases chars.len() - begin,
    {
        let end = line_end(&chars, begin);
        let (from, to) = trim_bounds(&chars, begin, end);
        let ghost rest = chars@.skip(begin as int);
        let ghost tail = if end < chars.len() {
            command_lines(chars@.skip(end + 1))
        } else {
            Seq::<Seq<char>>::empty()
        };
        let ghost line = chars@.subrange(from as int, to as int);
        let ghost head = if from < to {
            seq![line]
        } else {
            Seq::<Seq<char>>::empty()
        };
        proof {
            assert(rest.take(end - begin) =~= chars@.subrange(begin as int, end as int));
            if end < chars.len() {
                assert(rest.skip(end - begin + 1) =~= chars@.skip(end + 1));
            }
        }
        if from < to {
            let text = text_of(&chars, from, to);
            proof {
                assert((head + tail).drop_first() =~= tail);
            }
            match apply_line(text.as_str(), grid, position) {
                Ok(next) => {
                    position = next;
                },
                Err(error) => {
                    return Err(error);
                },
            }
        }
        assert(run_spec(script@, grid, start) == replay(tail, grid, position));
        if end >= chars.len() {
            return Ok(position);
        }
        begin = end + 1;
    }
}

} // verus!
