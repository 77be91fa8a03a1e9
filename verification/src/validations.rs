//! What makes a configuration playable and a move acceptable.

use vstd::prelude::*;
use crate::game::PebblesGame;
use crate::types::GameError;

verus! {

/// A playable configuration: more than two pebbles, more than one pebble per
/// turn, and a per-turn maximum strictly below half the pile, the half
/// rounded down.
pub open spec fn valid_config(pebbles_count: int, max_pebbles_per_turn: int) -> bool {
    &&& max_pebbles_per_turn > 1
    &&& pebbles_count > 2
    &&& max_pebbles_per_turn < pebbles_count / 2
}

/// An acceptable move: at least one pebble, at most the per-turn maximum,
/// and no more than the pile holds at the moment.
pub open spec fn valid_turn(
    remove_count: int,
    max_pebbles_per_turn: int,
    pebbles_remaining: int,
) -> bool {
    &&& remove_count >= 1
    &&& remove_count <= max_pebbles_per_turn
    &&& remove_count <= pebbles_remaining
}

impl PebblesGame {
    /// Accepts or rejects the number of pebbles the user wants to remove
    /// from this game's pile.
    pub fn validate_turn_remove_count(&self, count: u32) -> (verdict: Result<(), GameError>)
        ensures
            valid_turn(
                count as int,
                self@.max_pebbles_per_turn as int,
                self@.pebbles_remaining as int,
            ) ==> verdict == Ok::<(), GameError>(()),
            !valid_turn(
                count as int,
                self@.max_pebbles_per_turn as int,
                self@.pebbles_remaining as int,
            ) ==> verdict == Err::<(), GameError>(GameError::InvalidTurn),
    {
        let state = self.state();
        if count < 1 || count > state.max_pebbles_per_turn || count > state.pebbles_remaining {
            Err(GameError::InvalidTurn)
        } else {
            Ok(())
        }
    }

    /// Accepts or rejects the pair of numbers a game is to be started with.
    pub fn validate_max_pebbles_per_turn_and_pebbles_count(
        max_pebbles_per_turn: u32,
        pebbles_count: u32,
    ) -> (verdict: Result<(), GameError>)
        ensures
            valid_config(pebbles_count as int, max_pebbles_per_turn as int) ==> verdict == Ok::<
                (),
                GameError,
            >(()),
            !valid_config(pebbles_count as int, max_pebbles_per_turn as int) ==> verdict == Err::<
                (),
                GameError,
            >(GameError::InvalidConfig),
    {
        if max_pebbles_per_turn <= 1 || pebbles_count <= 2 {
            return Err(GameError::InvalidConfig);
        }
        if max_pebbles_per_turn >= pebbles_count / 2 {
            return Err(GameError::InvalidConfig);
        }
        Ok(())
    }
}

} // verus!
