//! A two-dimensional cellular-automaton engine on a square, toroidally
//! wrapped grid, with configurable birth/survival rules.

mod arith;
pub mod cell;
pub mod engine;
pub mod game;
pub mod grid;
pub mod laws;
pub mod notation;
mod random;
mod text;
pub mod rule;
pub mod state;

pub use cell::Cell;
pub use engine::Engine;
pub use game::Game;
pub use grid::{Grid, GridView};
pub use notation::ParseError;
pub use rule::{Rule, RuleView};
pub use state::{AutomatonView, BuilderView};
