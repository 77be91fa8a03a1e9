//! What holds of the game whatever is played: statements about the spec
//! functions that the contracts of [`PebblesGame`](crate::game::PebblesGame)
//! and [`Dispatcher`](crate::dispatcher::Dispatcher) are written in, each
//! proved for every state, every request and every draw.

use vstd::prelude::*;
use crate::strategy::{
    lemma_hard_removal_leaves_losing_pile,
    lemma_no_escape_from_losing_pile,
    lemma_removal_in_range,
    losing_pile,
};
use crate::types::{DifficultyLevel, GameError, GameState, PebblesAction, PebblesEvent, Player};
use crate::validations::valid_config;

verus! {

/// A game started from a playable configuration is valid and undecided. If
/// the user moves first the pile is full; if the program moves first it has
/// taken at least one pebble and at most the per-turn maximum.
pub proof fn lemma_opening_pile_bounds(
    pebbles_count: u32,
    max_pebbles_per_turn: u32,
    difficulty: DifficultyLevel,
    first_player_draw: u32,
    removal_draw: u32,
)
    requires
        valid_config(pebbles_count as int, max_pebbles_per_turn as int),
    ensures
        ({
            let game = GameState::opening(
                pebbles_count,
                max_pebbles_per_turn,
                difficulty,
                first_player_draw,
                removal_draw,
            );
            &&& game.valid()
            &&& game.winner is None
            &&& game.pebbles_count == pebbles_count
            &&& game.max_pebbles_per_turn == max_pebbles_per_turn
            &&& 0 < game.pebbles_remaining <= pebbles_count
            &&& game.first_player == Player::User ==> game.pebbles_remaining == pebbles_count
            &&& game.first_player == Player::Program ==> pebbles_count - max_pebbles_per_turn
                <= game.pebbles_remaining < pebbles_count
        }),
{
    lemma_removal_in_range(
        difficulty,
        pebbles_count as int,
        max_pebbles_per_turn as int,
        removal_draw as int,
    );
}

/// An allowed turn takes the user's pebbles and then the program's from the
/// pile, stopping at zero: the pile never goes below zero and always
/// shrinks. An emptied pile has a winner, any other turn leaves the winner
/// as it was, and the game stays valid.
pub proof fn lemma_turn_never_overdraws(game: GameState, remove_count: u32, removal_draw: u32)
    requires
        game.turn_allowed(remove_count),
    ensures
        ({
            let next = game.after_turn(remove_count, removal_draw);
            let left = game.pebbles_remaining - remove_count;
            let taken = game.counter_removal(remove_count, removal_draw);
            &&& 1 <= taken <= game.max_pebbles_per_turn
            &&& next.pebbles_remaining == (if left == 0 {
                0
            } else {
                vstd::math::max(0, left - taken)
            })
            &&& 0 <= next.pebbles_remaining < game.pebbles_remaining
            &&& next.pebbles_remaining == 0 ==> next.winner is Some
            &&& next.pebbles_remaining > 0 ==> next.winner == game.winner
            &&& game.valid() ==> next.valid()
        }),
{
    lemma_removal_in_range(
        game.difficulty,
        game.pebbles_remaining - remove_count,
        game.max_pebbles_per_turn as int,
        removal_draw as int,
    );
}

/// A request that is turned down changes nothing.
pub proof fn lemma_rejected_request_changes_nothing(
    game: GameState,
    action: PebblesAction,
    first_player_draw: u32,
    removal_draw: u32,
)
    requires
        game.answer(action, first_player_draw, removal_draw) is Err,
    ensures
        game.after(action, first_player_draw, removal_draw) == game,
{
}

/// Whatever the request and whether or not it is turned down, a valid game
/// stays valid.
pub proof fn lemma_requests_preserve_validity(
    game: GameState,
    action: PebblesAction,
    first_player_draw: u32,
    removal_draw: u32,
)
    requires
        game.valid(),
    ensures
        game.after(action, first_player_draw, removal_draw).valid(),
{
    match action {
        PebblesAction::Turn(remove_count) => {
            if game.turn_allowed(remove_count) {
                lemma_turn_never_overdraws(game, remove_count, removal_draw);
            }
        },
        PebblesAction::GiveUp => {},
        PebblesAction::Restart { difficulty, pebbles_count, max_pebbles_per_turn } => {
            if valid_config(pebbles_count as int, max_pebbles_per_turn as int) {
                lemma_opening_pile_bounds(
                    pebbles_count,
                    max_pebbles_per_turn,
                    difficulty,
                    first_player_draw,
                    removal_draw,
                );
            }
        },
    }
}

/// Only a restart that succeeds makes a decided game undecided again, and
/// only such a restart changes the configuration or who moved first.
pub proof fn lemma_only_restart_resets(
    game: GameState,
    action: PebblesAction,
    first_player_draw: u32,
    removal_draw: u32,
)
    requires
        game.answer(action, first_player_draw, removal_draw) != Ok::<PebblesEvent, GameError>(
            PebblesEvent::GameRestarted,
        ),
    ensures
        ({
            let next = game.after(action, first_player_draw, removal_draw);
            &&& game.winner is Some ==> next.winner is Some
            &&& next.pebbles_count == game.pebbles_count
            &&& next.max_pebbles_per_turn == game.max_pebbles_per_turn
            &&& next.difficulty == game.difficulty
            &&& next.first_player == game.first_player
            &&& next.pebbles_remaining <= game.pebbles_remaining
        }),
{
    match action {
        PebblesAction::Turn(remove_count) => {
            if game.turn_allowed(remove_count) {
                lemma_turn_never_overdraws(game, remove_count, removal_draw);
            }
        },
        PebblesAction::GiveUp => {},
        PebblesAction::Restart { difficulty, pebbles_count, max_pebbles_per_turn } => {},
    }
}

/// Once the pile is empty no turn is accepted any more: every further turn
/// is turned down and leaves the pile empty and the winner in place.
pub proof fn lemma_empty_pile_accepts_no_turn(
    game: GameState,
    remove_count: u32,
    first_player_draw: u32,
    removal_draw: u32,
)
    requires
        game.pebbles_remaining == 0,
    ensures
        !game.turn_allowed(remove_count),
        game.answer(PebblesAction::Turn(remove_count), first_player_draw, removal_draw) == Err::<
            PebblesEvent,
            GameError,
        >(GameError::InvalidTurn),
        game.after(PebblesAction::Turn(remove_count), first_player_draw, removal_draw) == game,
{
}

/// The event of a turn tells what happened to the pile: `Won` exactly when
/// the pile is empty afterwards, by the user exactly when the user's own
/// pebbles were the last ones, and `CounterTurn` with the number of pebbles
/// that the program took otherwise.
pub proof fn lemma_turn_event_matches_pile(game: GameState, remove_count: u32, removal_draw: u32)
    requires
        game.turn_allowed(remove_count),
    ensures
        ({
            let next = game.after_turn(remove_count, removal_draw);
            let event = game.turn_event(remove_count, removal_draw);
            &&& event == PebblesEvent::Won(Player::User) <==> game.pebbles_remaining
                == remove_count
            &&& event is Won <==> next.pebbles_remaining == 0
            &&& event matches PebblesEvent::Won(player) ==> next.winner == Some(player)
            &&& event matches PebblesEvent::CounterTurn(taken) ==> {
                &&& next.winner == game.winner
                &&& 1 <= taken <= game.max_pebbles_per_turn
                &&& next.pebbles_remaining == game.pebbles_remaining - remove_count - taken
            }
            &&& event !is GameRestarted
        }),
{
    lemma_removal_in_range(
        game.difficulty,
        game.pebbles_remaining - remove_count,
        game.max_pebbles_per_turn as int,
        removal_draw as int,
    );
}

/// At difficulty `Hard`, a user who has to move from a pile that is a
/// multiple of one more than the per-turn maximum does not win with that
/// move, and after the program's answer faces such a pile again.
pub proof fn lemma_hard_answer_restores_losing_pile(
    game: GameState,
    remove_count: u32,
    removal_draw: u32,
)
    requires
        game.difficulty == DifficultyLevel::Hard,
        losing_pile(game.pebbles_remaining as int, game.max_pebbles_per_turn as int),
        game.turn_allowed(remove_count),
    ensures
        ({
            let next = game.after_turn(remove_count, removal_draw);
            &&& game.turn_event(remove_count, removal_draw) != PebblesEvent::Won(Player::User)
            &&& next.winner == game.winner || next.winner == Some(Player::Program)
            &&& losing_pile(next.pebbles_remaining as int, next.max_pebbles_per_turn as int)
        }),
{
    let max = game.max_pebbles_per_turn as int;
    let left = game.pebbles_remaining - remove_count;
    lemma_no_escape_from_losing_pile(game.pebbles_remaining as int, max, remove_count as int);
    lemma_hard_removal_leaves_losing_pile(left, max);
}

/// The game after a series of turns, each a number of pebbles to remove and
/// the draw for the program's answer, played in order. A turn that is not
/// allowed is turned down and the series goes on.
pub open spec fn after_turns(game: GameState, turns: Seq<(u32, u32)>) -> GameState
    decreases turns.len(),
{
    if turns.len() == 0 {
        game
    } else {
        after_turns(game, turns.drop_last()).after(
            PebblesAction::Turn(turns.last().0),
            0,
            turns.last().1,
        )
    }
}

/// At difficulty `Hard`, a user who has to move from a pile that is a
/// multiple of one more than the per-turn maximum never wins, whatever
/// turns follow.
pub proof fn lemma_user_never_wins_from_losing_pile(game: GameState, turns: Seq<(u32, u32)>)
    requires
        game.difficulty == DifficultyLevel::Hard,
        game.winner != Some(Player::User),
        losing_pile(game.pebbles_remaining as int, game.max_pebbles_per_turn as int),
    ensures
        ({
            let end = after_turns(game, turns);
            &&& end.winner != Some(Player::User)
            &&& end.difficulty == DifficultyLevel::Hard
            &&& end.max_pebbles_per_turn == game.max_pebbles_per_turn
            &&& losing_pile(end.pebbles_remaining as int, end.max_pebbles_per_turn as int)
        }),
    decreases turns.len(),
{
    if turns.len() > 0 {
        lemma_user_never_wins_from_losing_pile(game, turns.drop_last());
        let before = after_turns(game, turns.drop_last());
        let (remove_count, removal_draw) = turns.last();
        if before.turn_allowed(remove_count) {
            lemma_hard_answer_restores_losing_pile(before, remove_count, removal_draw);
        }
    }
}

/// At difficulty `Hard`, a program that opens the game on a pile that is not
/// a multiple of one more than the per-turn maximum leaves the user such a
/// multiple, and the user therefore never wins that game.
pub proof fn lemma_hard_opening_wins(
    pebbles_count: u32,
    max_pebbles_per_turn: u32,
    first_player_draw: u32,
    removal_draw: u32,
    turns: Seq<(u32, u32)>,
)
    requires
        valid_config(pebbles_count as int, max_pebbles_per_turn as int),
        first_player_draw % 2 == 0,
        !losing_pile(pebbles_count as int, max_pebbles_per_turn as int),
    ensures
        after_turns(
            GameState::opening(
                pebbles_count,
                max_pebbles_per_turn,
                DifficultyLevel::Hard,
                first_player_draw,
                removal_draw,
            ),
            turns,
        ).winner != Some(Player::User),
{
    lemma_hard_removal_leaves_losing_pile(pebbles_count as int, max_pebbles_per_turn as int);
    lemma_user_never_wins_from_losing_pile(
        GameState::opening(
            pebbles_count,
            max_pebbles_per_turn,
            DifficultyLevel::Hard,
            first_player_draw,
            removal_draw,
        ),
        turns,
    );
}

} // verus!
