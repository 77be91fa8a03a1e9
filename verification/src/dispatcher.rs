//! The owner of the one live game.
//!
//! A [`Dispatcher`] starts out without a game. `init` puts a game into it,
//! `handle` routes each request of the user to the game and hands back the
//! event that answers it, and `state` reads the game without touching it.
//! Whoever holds the dispatcher holds it exclusively, so requests are served
//! one after the other, each on the settled result of the one before.

use vstd::prelude::*;
use crate::game::PebblesGame;
use crate::types::{GameError, GameState, PebblesAction, PebblesEvent, PebblesInit, Player};
use crate::validations::valid_config;

verus! {

impl GameState {
    /// The game after a request has been served. A request that is turned
    /// down leaves the game as it was.
    pub open spec fn after(
        self,
        action: PebblesAction,
        first_player_draw: u32,
        removal_draw: u32,
    ) -> GameState {
        match action {
            PebblesAction::Turn(remove_count) => if self.turn_allowed(remove_count) {
                self.after_turn(remove_count, removal_draw)
            } else {
                self
            },
            PebblesAction::GiveUp => self.after_give_up(),
            PebblesAction::Restart { difficulty, pebbles_count, max_pebbles_per_turn } => if valid_config(
                pebbles_count as int,
                max_pebbles_per_turn as int,
            ) {
                GameState::opening(
                    pebbles_count,
                    max_pebbles_per_turn,
                    difficulty,
                    first_player_draw,
                    removal_draw,
                )
            } else {
                self
            },
        }
    }

    /// The answer to a request: the event it produces, or the reason it is
    /// turned down.
    pub open spec fn answer(
        self,
        action: PebblesAction,
        first_player_draw: u32,
        removal_draw: u32,
    ) -> Result<PebblesEvent, GameError> {
        match action {
            PebblesAction::Turn(remove_count) => if self.turn_allowed(remove_count) {
                Ok(self.turn_event(remove_count, removal_draw))
            } else {
                Err(GameError::InvalidTurn)
            },
            PebblesAction::GiveUp => Ok(PebblesEvent::Won(Player::Program)),
            PebblesAction::Restart { difficulty, pebbles_count, max_pebbles_per_turn } => if valid_config(
                pebbles_count as int,
                max_pebbles_per_turn as int,
            ) {
                Ok(PebblesEvent::GameRestarted)
            } else {
                Err(GameError::InvalidConfig)
            },
        }
    }
}

/// Holds the live game, or nothing before the first successful `init`.
#[derive(Debug)]
pub struct Dispatcher {
    game: Option<PebblesGame>,
}

impl View for Dispatcher {
    type V = Option<GameState>;

    closed spec fn view(&self) -> Option<GameState> {
        match self.game {
            Some(game) => Some(game@),
            None => None,
        }
    }
}

impl Dispatcher {
    /// A dispatcher without a game.
    pub fn new() -> (dispatcher: Self)
        ensures
            dispatcher@ is None,
    {
        Dispatcher { game: None }
    }

    /// Starts a game from `init` and makes it the live one, replacing any
    /// game there was. A configuration that is not playable is rejected with
    /// `InvalidConfig` and leaves the dispatcher as it was.
    pub fn init(&mut self, init: PebblesInit, first_player_draw: u32, removal_draw: u32) -> (done:
        Result<(), GameError>)
        ensures
            valid_config(init.pebbles_count as int, init.max_pebbles_per_turn as int) ==> {
                &&& done == Ok::<(), GameError>(())
                &&& final(self)@ == Some(
                    GameState::opening(
                        init.pebbles_count,
                        init.max_pebbles_per_turn,
                        init.difficulty,
                        first_player_draw,
                        removal_draw,
                    ),
                )
            },
            !valid_config(init.pebbles_count as int, init.max_pebbles_per_turn as int) ==> {
                &&& done == Err::<(), GameError>(GameError::InvalidConfig)
                &&& final(self)@ == old(self)@
            },
            final(self)@ matches Some(game) ==> game.valid(),
    {
        proof {
            match &self.game {
                Some(game) => {
                    use_type_invariant(game);
                },
                None => {},
            }
        }
        match PebblesGame::new(
            init.pebbles_count,
            init.max_pebbles_per_turn,
            init.difficulty,
            first_player_draw,
            removal_draw,
        ) {
            Ok(game) => {
                self.game = Some(game);
                Ok(())
            },
            Err(error) => Err(error),
        }
    }

    /// Serves one request of the user.
    ///
    /// Before the first successful `init` every request is rejected with
    /// `Uninitialized`. After it, a `Turn` is played, a `GiveUp` concedes
    /// the game and a `Restart` replaces it. `first_player_draw` is read by
    /// a `Restart` only; `removal_draw` is the random number for the
    /// program's move in a `Turn` or at the opening of a restarted game.
    pub fn handle(
        &mut self,
        action: PebblesAction,
        first_player_draw: u32,
        removal_draw: u32,
    ) -> (event: Result<PebblesEvent, GameError>)
        ensures
            old(self)@ is None ==> {
                &&& event == Err::<PebblesEvent, GameError>(GameError::Uninitialized)
                &&& final(self)@ is None
            },
            old(self)@ matches Some(game) ==> {
                &&& event == game.answer(action, first_player_draw, removal_draw)
                &&& final(self)@ == Some(game.after(action, first_player_draw, removal_draw))
            },
            event is Err ==> final(self)@ == old(self)@,
            final(self)@ matches Some(game) ==> game.valid(),
    {
        match &mut self.game {
            None => Err(GameError::Uninitialized),
            Some(game) => match action {
                PebblesAction::Turn(remove_count) => game.turn(remove_count, removal_draw),
                PebblesAction::GiveUp => Ok(game.give_up()),
                PebblesAction::Restart {
                    difficulty,
                    pebbles_count,
                    max_pebbles_per_turn,
                } => game.restart(
                    difficulty,
                    pebbles_count,
                    max_pebbles_per_turn,
                    first_player_draw,
                    removal_draw,
                ),
            },
        }
    }

    /// A snapshot of the live game, or `Uninitialized` where there is none.
    /// Reading it changes nothing.
    pub fn state(&self) -> (snapshot: Result<GameState, GameError>)
        ensures
            self@ matches Some(game) ==> snapshot == Ok::<GameState, GameError>(game),
            self@ is None ==> snapshot == Err::<GameState, GameError>(GameError::Uninitialized),
            snapshot matches Ok(game) ==> game.valid(),
    {
        match &self.game {
            Some(game) => Ok(game.state()),
            None => Err(GameError::Uninitialized),
        }
    }
}

} // verus!
