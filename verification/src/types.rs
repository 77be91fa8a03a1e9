//! The values that cross the library's boundary: requests, events, the
//! snapshot of a game, and the errors a request can end in.

use vstd::prelude::*;

verus! {

/// How the program chooses the number of pebbles it removes.
#[derive(Clone, Copy, Debug, PartialEq, Eq, Structural)]
pub enum DifficultyLevel {
    /// A number drawn at random between one and the per-turn maximum.
    Easy,
    /// The move that leaves a multiple of the per-turn maximum plus one.
    Hard,
}

/// One of the two players.
#[derive(Clone, Copy, Debug, PartialEq, Eq, Structural)]
pub enum Player {
    User,
    Program,
}

/// The parameters a game is started with.
#[derive(Clone, Copy, Debug, PartialEq, Eq)]
pub struct PebblesInit {
    pub difficulty: DifficultyLevel,
    pub pebbles_count: u32,
    pub max_pebbles_per_turn: u32,
}

/// A request by the user.
#[derive(Clone, Copy, Debug, PartialEq, Eq)]
pub enum PebblesAction {
    /// Remove this many pebbles.
    Turn(u32),
    /// Concede the game to the program.
    GiveUp,
    /// Throw the current game away and start another.
    Restart { difficulty: DifficultyLevel, pebbles_count: u32, max_pebbles_per_turn: u32 },
}

/// The answer to a request.
#[derive(Clone, Copy, Debug, PartialEq, Eq)]
pub enum PebblesEvent {
    /// The program answered the user's move by removing this many pebbles.
    CounterTurn(u32),
    /// The game is over.
    Won(Player),
    /// A new game has replaced the previous one.
    GameRestarted,
}

/// Everything there is to know about a game at one moment.
#[derive(Clone, Copy, Debug, PartialEq, Eq)]
pub struct GameState {
    pub pebbles_count: u32,
    pub max_pebbles_per_turn: u32,
    pub pebbles_remaining: u32,
    pub difficulty: DifficultyLevel,
    pub first_player: Player,
    pub winner: Option<Player>,
}

/// Why a request was turned down. A request that is turned down changes
/// nothing.
#[derive(Clone, Copy, Debug, PartialEq, Eq, Structural)]
pub enum GameError {
    /// The pile size and per-turn maximum do not describe a playable game.
    InvalidConfig,
    /// The number of pebbles to remove is zero, above the per-turn maximum,
    /// or more than the pile holds.
    InvalidTurn,
    /// No game has been started yet.
    Uninitialized,
}

} // verus!
