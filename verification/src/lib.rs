//! A pebble-removal game for one human player against the program.
//!
//! Both players take turns removing between one and a fixed maximum number of
//! pebbles from a shared pile; whoever takes the last pebble wins. The crate
//! holds the rules, the program's two strategies and the state machine that
//! answers each request with exactly one event. Random numbers are handed in
//! by the caller as plain `u32` draws, so every function here is a pure
//! function of its arguments.

pub mod dispatcher;
pub mod game;
pub mod laws;
pub mod random;
pub mod strategy;
pub mod types;
pub mod validations;

pub use dispatcher::Dispatcher;
pub use game::PebblesGame;
pub use random::random_u32_from_hash;
pub use types::{DifficultyLevel, GameError, GameState, PebblesAction, PebblesEvent, PebblesInit, Player};
