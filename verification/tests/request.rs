use rustbot::grid::GridConfig;
use rustbot::position::{Direction, Position};
use rustbot::request::{apply, handle, Action};
use rustbot::script::ScriptError;
use rustbot::state::{State, Tokens};

fn tokens(i: &str, j: &str, max_i: &str, max_j: &str) -> Tokens {
    Tokens {
        i: Some(i.to_string()),
        j: Some(j.to_string()),
        max_i: Some(max_i.to_string()),
        max_j: Some(max_j.to_string()),
    }
}

fn state(rows: u32, columns: u32, row: u32, column: u32) -> State {
    State { grid: GridConfig { rows, columns }, position: Position { row, column } }
}

fn written(tokens: &Tokens) -> [Option<&str>; 4] {
    [tokens.i.as_deref(), tokens.j.as_deref(), tokens.max_i.as_deref(), tokens.max_j.as_deref()]
}

#[test]
fn show_changes_nothing() {
    assert_eq!(apply(state(4, 6, 3, 5), &Action::Show), Ok(state(4, 6, 3, 5)));
}

#[test]
fn reset_keeps_the_grid() {
    assert_eq!(apply(state(4, 6, 3, 5), &Action::Reset), Ok(state(4, 6, 0, 0)));
}

#[test]
fn a_move_wraps_on_the_grid_of_the_state() {
    assert_eq!(apply(state(4, 6, 3, 5), &Action::Move(Direction::Right)), Ok(state(4, 6, 3, 0)));
    assert_eq!(apply(state(4, 6, 3, 5), &Action::Move(Direction::Down)), Ok(state(4, 6, 0, 5)));
    assert_eq!(apply(state(4, 6, 0, 0), &Action::Move(Direction::Left)), Ok(state(4, 6, 0, 5)));
    assert_eq!(apply(state(4, 6, 0, 0), &Action::Move(Direction::Up)), Ok(state(4, 6, 3, 0)));
}

#[test]
fn a_teleport_is_not_held_to_the_grid() {
    assert_eq!(
        apply(state(4, 6, 3, 5), &Action::Teleport { row: 9, column: 100 }),
        Ok(state(4, 6, 9, 100))
    );
}

#[test]
fn a_resize_is_not_held_to_the_largest_grid() {
    assert_eq!(
        apply(state(4, 6, 3, 5), &Action::Resize { rows: 50, columns: 2 }),
        Ok(state(50, 2, 0, 0))
    );
}

#[test]
fn a_script_moves_the_token_of_the_state() {
    assert_eq!(
        apply(state(5, 5, 0, 0), &Action::Run("right\nright\ndown".to_string())),
        Ok(state(5, 5, 1, 2))
    );
}

#[test]
fn a_failing_script_gives_only_its_error() {
    assert_eq!(
        apply(state(5, 5, 0, 0), &Action::Run("right\nsideways".to_string())),
        Err(ScriptError::UnknownCommand("sideways".to_string()))
    );
    assert_eq!(
        apply(state(5, 5, 0, 0), &Action::Run("go to (3)".to_string())),
        Err(ScriptError::MalformedTeleportCommand)
    );
}

#[test]
fn handle_reads_applies_and_writes() {
    let reply = handle(&tokens("1", "4", "3", "5"), &Action::Move(Direction::Right)).unwrap();
    assert_eq!(reply.state, state(3, 5, 1, 0));
    assert_eq!(written(&reply.tokens), [Some("1"), Some("0"), Some("3"), Some("5")]);
}

#[test]
fn handle_without_slots_starts_from_the_default_state() {
    let none = Tokens { i: None, j: None, max_i: None, max_j: None };
    let reply = handle(&none, &Action::Show).unwrap();
    assert_eq!(reply.state, state(5, 5, 0, 0));
    assert_eq!(written(&reply.tokens), [Some("0"), Some("0"), Some("5"), Some("5")]);
}

#[test]
fn handle_clamps_what_it_reads() {
    let reply = handle(&tokens("99", "zz", "99", "0"), &Action::Show).unwrap();
    assert_eq!(reply.state, state(20, 5, 19, 0));
    assert_eq!(written(&reply.tokens), [Some("19"), Some("0"), Some("20"), Some("5")]);
}

#[test]
fn handle_writes_a_teleport_and_a_resize_as_they_are() {
    let reply = handle(&tokens("1", "1", "5", "5"), &Action::Teleport { row: 7, column: 8 }).unwrap();
    assert_eq!(written(&reply.tokens), [Some("7"), Some("8"), Some("5"), Some("5")]);
    let reply = handle(&tokens("1", "1", "5", "5"), &Action::Resize { rows: 30, columns: 0 }).unwrap();
    assert_eq!(reply.state, state(30, 0, 0, 0));
    assert_eq!(written(&reply.tokens), [Some("0"), Some("0"), Some("30"), Some("0")]);
}

#[test]
fn handle_runs_a_script_from_the_state_it_read() {
    let reply =
        handle(&tokens("4", "4", "5", "5"), &Action::Run("down\nright\ngo to (2;2)\nup".to_string()))
            .unwrap();
    assert_eq!(reply.state, state(5, 5, 1, 2));
    assert_eq!(written(&reply.tokens), [Some("1"), Some("2"), Some("5"), Some("5")]);
}

#[test]
fn handle_reports_a_failing_script() {
    let failed = handle(&tokens("4", "4", "5", "5"), &Action::Run("jump".to_string()));
    assert!(matches!(failed, Err(ScriptError::UnknownCommand(line)) if line == "jump"));
}
