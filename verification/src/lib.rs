//! A bounded two-dimensional grid with a single token on it, the moves that
//! carry the token around, and a small interpreter that replays a script of
//! textual commands.

pub mod decimal;
pub mod grid;
pub mod pattern;
pub mod position;
pub mod request;
pub mod script;
pub mod state;
pub mod text;
