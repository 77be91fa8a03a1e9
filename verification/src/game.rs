//! The game itself: one pile, two players, and the moves that change it.
//!
//! A [`GameState`] is a plain snapshot; the spec functions on it say what
//! each move does to a snapshot. A [`PebblesGame`] is the live game: it can
//! only be made from a playable configuration and only be changed by the
//! moves, and it carries [`GameState::valid`] as its type invariant.

use vstd::prelude::*;
use crate::strategy::program_removal;
use crate::types::{DifficultyLevel, GameError, GameState, PebblesEvent, Player};
use crate::validations::{valid_config, valid_turn};

verus! {

/// Who moves first: the program on an even draw, the user on an odd one.
pub open spec fn first_player_for(draw: int) -> Player {
    if draw % 2 == 0 {
        Player::Program
    } else {
        Player::User
    }
}

impl GameState {
    /// What holds of a game from its start to its end: the configuration is
    /// playable, the pile never holds more than it started with, and an
    /// empty pile has a winner.
    pub open spec fn valid(self) -> bool {
        &&& valid_config(self.pebbles_count as int, self.max_pebbles_per_turn as int)
        &&& self.pebbles_remaining <= self.pebbles_count
        &&& self.pebbles_remaining == 0 ==> self.winner is Some
    }

    /// The game as it stands right after it was started from a playable
    /// configuration: nobody has won, and if the program moves first its
    /// opening move, chosen for the full pile, has already been taken.
    pub open spec fn opening(
        pebbles_count: u32,
        max_pebbles_per_turn: u32,
        difficulty: DifficultyLevel,
        first_player_draw: u32,
        removal_draw: u32,
    ) -> GameState {
        let first_player = first_player_for(first_player_draw as int);
        let removed = match first_player {
            Player::Program => program_removal(
                difficulty,
                pebbles_count as int,
                max_pebbles_per_turn as int,
                removal_draw as int,
            ),
            Player::User => 0,
        };
        GameState {
            pebbles_count,
            max_pebbles_per_turn,
            pebbles_remaining: (pebbles_count - removed) as u32,
            difficulty,
            first_player,
            winner: None,
        }
    }

    /// Whether the user may remove `remove_count` pebbles now.
    pub open spec fn turn_allowed(self, remove_count: u32) -> bool {
        valid_turn(
            remove_count as int,
            self.max_pebbles_per_turn as int,
            self.pebbles_remaining as int,
        )
    }

    /// The number of pebbles the program takes in answer to an allowed move
    /// of the user that does not empty the pile. It is chosen for the pile as
    /// the user left it.
    pub open spec fn counter_removal(self, remove_count: u32, removal_draw: u32) -> int {
        program_removal(
            self.difficulty,
            self.pebbles_remaining - remove_count,
            self.max_pebbles_per_turn as int,
            removal_draw as int,
        )
    }

    /// The game after an allowed move of the user and, unless that move
    /// emptied the pile, the program's answer. Whoever empties the pile
    /// becomes the winner; the program's answer never takes the pile below
    /// zero.
    pub open spec fn after_turn(self, remove_count: u32, removal_draw: u32) -> GameState {
        let left = self.pebbles_remaining - remove_count;
        let taken = self.counter_removal(remove_count, removal_draw);
        if left == 0 {
            GameState { pebbles_remaining: 0, winner: Some(Player::User), ..self }
        } else if left <= taken {
            GameState { pebbles_remaining: 0, winner: Some(Player::Program), ..self }
        } else {
            GameState { pebbles_remaining: (left - taken) as u32, ..self }
        }
    }

    /// The event that answers an allowed move of the user.
    pub open spec fn turn_event(self, remove_count: u32, removal_draw: u32) -> PebblesEvent {
        let left = self.pebbles_remaining - remove_count;
        let taken = self.counter_removal(remove_count, removal_draw);
        if left == 0 {
            PebblesEvent::Won(Player::User)
        } else if left <= taken {
            PebblesEvent::Won(Player::Program)
        } else {
            PebblesEvent::CounterTurn(taken as u32)
        }
    }

    /// The game after the user has conceded it.
    pub open spec fn after_give_up(self) -> GameState {
        GameState { winner: Some(Player::Program), ..self }
    }
}

/// A game in play or finished. Its contents can be read with
/// [`PebblesGame::state`] and change only through the moves of the game.
#[derive(Debug)]
pub struct PebblesGame(GameState);

impl Clone for PebblesGame {
    fn clone(&self) -> (copy: Self)
        ensures
            copy@ == self@,
    {
        proof {
            use_type_invariant(self);
        }
        PebblesGame(self.0)
    }
}

impl View for PebblesGame {
    type V = GameState;

    closed spec fn view(&self) -> GameState {
        self.0
    }
}

impl PebblesGame {
    /// Every game there is satisfies [`GameState::valid`].
    #[verifier::type_invariant]
    pub open spec fn well_formed(self) -> bool {
        self@.valid()
    }

    /// Starts a game.
    ///
    /// A configuration that is not playable is rejected with
    /// `InvalidConfig`. Otherwise `first_player_draw` decides who moves
    /// first, and if that is the program it opens at once; `removal_draw`
    /// is the random number for that opening move.
    pub fn new(
        pebbles_count: u32,
        max_pebbles_per_turn: u32,
        difficulty: DifficultyLevel,
        first_player_draw: u32,
        removal_draw: u32,
    ) -> (game: Result<Self, GameError>)
        ensures
            valid_config(pebbles_count as int, max_pebbles_per_turn as int) ==> game is Ok
                && game->Ok_0@ == GameState::opening(
                pebbles_count,
                max_pebbles_per_turn,
                difficulty,
                first_player_draw,
                removal_draw,
            ),
            !valid_config(pebbles_count as int, max_pebbles_per_turn as int) ==> game == Err::<
                Self,
                GameError,
            >(GameError::InvalidConfig),
            game matches Ok(g) ==> {
                &&& g@.valid()
                &&& g@.winner is None
                &&& g@.pebbles_count == pebbles_count
                &&& g@.max_pebbles_per_turn == max_pebbles_per_turn
                &&& g@.difficulty == difficulty
                &&& g@.first_player == first_player_for(first_player_draw as int)
                &&& g@.first_player == Player::User ==> g@.pebbles_remaining == pebbles_count
                &&& g@.first_player == Player::Program ==> pebbles_count - max_pebbles_per_turn
                    <= g@.pebbles_remaining < pebbles_count
            },
    {
        match Self::validate_max_pebbles_per_turn_and_pebbles_count(
            max_pebbles_per_turn,
            pebbles_count,
        ) {
            Err(error) => {
                return Err(error);
            },
            Ok(()) => {},
        }
        let first_player = if first_player_draw % 2 == 0 {
            Player::Program
        } else {
            Player::User
        };

        let mut pebbles_remaining = pebbles_count;
        match first_player {
            Player::Program => {
                let remove_count = Self::get_program_remove_count(
                    &difficulty,
                    pebbles_remaining,
                    max_pebbles_per_turn,
                    removal_draw,
                );
                pebbles_remaining = pebbles_remaining - remove_count;
            },
            Player::User => {},
        }

        Ok(
            Self(
                GameState {
                    first_player,
                    pebbles_count,
                    max_pebbles_per_turn,
                    difficulty,
                    pebbles_remaining,
                    winner: None,
                },
            ),
        )
    }

    /// Plays the user's move and, unless it ends the game, the program's
    /// answer.
    ///
    /// A move of zero pebbles, of more than the per-turn maximum or of more
    /// than the pile holds is rejected with `InvalidTurn` and changes
    /// nothing. `removal_draw` is the random number for the program's
    /// answer.
    ///
    /// A game that already has a winner is not closed to turns. On an empty
    /// pile every turn is rejected, as it asks for more than the pile holds;
    /// after a `give_up` with pebbles left, turns are played as before, and
    /// whoever then empties the pile becomes the winner.
    pub fn turn(&mut self, remove_count: u32, removal_draw: u32) -> (event: Result<
        PebblesEvent,
        GameError,
    >)
        ensures
            old(self)@.turn_allowed(remove_count) ==> {
                &&& event == Ok::<PebblesEvent, GameError>(
                    old(self)@.turn_event(remove_count, removal_draw),
                )
                &&& final(self)@ == old(self)@.after_turn(remove_count, removal_draw)
            },
            !old(self)@.turn_allowed(remove_count) ==> {
                &&& event == Err::<PebblesEvent, GameError>(GameError::InvalidTurn)
                &&& *final(self) == *old(self)
            },
            0 <= final(self)@.pebbles_remaining <= old(self)@.pebbles_remaining,
            final(self)@.pebbles_remaining == 0 ==> final(self)@.winner is Some,
            old(self)@.winner is Some ==> final(self)@.winner is Some,
            final(self)@.valid(),
    {
        proof {
            use_type_invariant(&*self);
        }
        match self.validate_turn_remove_count(remove_count) {
            Err(error) => {
                return Err(error);
            },
            Ok(()) => {},
        }

        let mut state = self.0;
        state.pebbles_remaining =
        state.pebbles_remaining.checked_sub(remove_count).unwrap_or_default();

        if state.pebbles_remaining == 0 {
            state.winner = Some(Player::User);
            self.0 = state;
            return Ok(PebblesEvent::Won(Player::User));
        }
        let program_remove_count = PebblesGame::get_program_remove_count(
            &state.difficulty,
            state.pebbles_remaining,
            state.max_pebbles_per_turn,
            removal_draw,
        );

        state.pebbles_remaining =
        state.pebbles_remaining.checked_sub(program_remove_count).unwrap_or_default();

        if state.pebbles_remaining == 0 {
            state.winner = Some(Player::Program);
            self.0 = state;
            Ok(PebblesEvent::Won(Player::Program))
        } else {
            self.0 = state;
            Ok(PebblesEvent::CounterTurn(program_remove_count))
        }
    }

    /// Concedes the game to the program, whatever the pile holds and whether
    /// or not the game was already over.
    pub fn give_up(&mut self) -> (event: PebblesEvent)
        ensures
            event == PebblesEvent::Won(Player::Program),
            final(self)@ == old(self)@.after_give_up(),
            final(self)@.winner == Some(Player::Program),
            final(self)@.valid(),
    {
        proof {
            use_type_invariant(&*self);
        }
        self.0.winner = Some(Player::Program);
        PebblesEvent::Won(Player::Program)
    }

    /// Replaces this game by a new one, started as [`PebblesGame::new`]
    /// starts it. A configuration that is not playable is rejected with
    /// `InvalidConfig`, and this game then stays as it was.
    pub fn restart(
        &mut self,
        difficulty: DifficultyLevel,
        pebbles_count: u32,
        max_pebbles_per_turn: u32,
        first_player_draw: u32,
        removal_draw: u32,
    ) -> (event: Result<PebblesEvent, GameError>)
        ensures
            valid_config(pebbles_count as int, max_pebbles_per_turn as int) ==> {
                &&& event == Ok::<PebblesEvent, GameError>(PebblesEvent::GameRestarted)
                &&& final(self)@ == GameState::opening(
                    pebbles_count,
                    max_pebbles_per_turn,
                    difficulty,
                    first_player_draw,
                    removal_draw,
                )
                &&& final(self)@.valid()
                &&& final(self)@.pebbles_count == pebbles_count
                &&& final(self)@.max_pebbles_per_turn == max_pebbles_per_turn
            },
            !valid_config(pebbles_count as int, max_pebbles_per_turn as int) ==> {
                &&& event == Err::<PebblesEvent, GameError>(GameError::InvalidConfig)
                &&& *final(self) == *old(self)
            },
            final(self)@.valid(),
    {
        proof {
            use_type_invariant(&*self);
        }
        match PebblesGame::new(
            pebbles_count,
            max_pebbles_per_turn,
            difficulty,
            first_player_draw,
            removal_draw,
        ) {
            Ok(new_game) => {
                *self = new_game;
                Ok(PebblesEvent::GameRestarted)
            },
            Err(error) => Err(error),
        }
    }

    /// Whether the pile is empty.
    pub fn pebbles_remaining_empty(&self) -> (empty: bool)
        ensures
            empty == (self@.pebbles_remaining == 0),
    {
        self.0.pebbles_remaining == 0
    }

    /// A snapshot of the game. Reading it changes nothing.
    pub fn state(&self) -> (snapshot: GameState)
        ensures
            snapshot == self@,
            snapshot.valid(),
    {
        proof {
            use_type_invariant(self);
        }
        self.0
    }
}

} // verus!
