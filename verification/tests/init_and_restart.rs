use pebbles_game::{
    DifficultyLevel, Dispatcher, GameError, GameState, PebblesAction, PebblesEvent, PebblesGame,
    PebblesInit, Player,
};

fn new_game(
    difficulty: DifficultyLevel,
    pebbles_count: Option<u32>,
    max_pebbles_per_turn: Option<u32>,
    first_player_draw: u32,
    removal_draw: u32,
) -> Dispatcher {
    let mut game = Dispatcher::new();
    assert!(game
        .init(
            PebblesInit {
                difficulty,
                pebbles_count: pebbles_count.unwrap_or(15),
                max_pebbles_per_turn: max_pebbles_per_turn.unwrap_or(5),
            },
            first_player_draw,
            removal_draw,
        )
        .is_ok());
    game
}

#[test]
fn invalid_pebbles_count_and_max_pebbles_per_turn() {
    let mut game = Dispatcher::new();
    assert!(game
        .init(
            PebblesInit {
                difficulty: DifficultyLevel::Hard,
                pebbles_count: 1,
                max_pebbles_per_turn: 2,
            },
            0,
            0,
        )
        .is_err());

    let mut game = Dispatcher::new();
    assert!(game
        .init(
            PebblesInit {
                difficulty: DifficultyLevel::Hard,
                pebbles_count: 6,
                max_pebbles_per_turn: 3,
            },
            0,
            0,
        )
        .is_err());
}

#[test]
fn process_turn_if_first_player_is_program() {
    let pebbles_count = 15;
    let game = new_game(DifficultyLevel::Hard, Some(pebbles_count), Some(5), 0, 0);

    let GameState {
        pebbles_remaining, ..
    } = game.state().unwrap();

    assert_ne!(pebbles_remaining, pebbles_count);
}

#[test]
fn reset_game_state() {
    for first_player_draw in 0..2u32 {
        let mut game = new_game(DifficultyLevel::Easy, Some(15), Some(5), first_player_draw, 3);

        let prev_state = game.state().unwrap();

        let res = game.handle(
            PebblesAction::Restart {
                difficulty: DifficultyLevel::Hard,
                pebbles_count: 20,
                max_pebbles_per_turn: 2,
            },
            first_player_draw,
            3,
        );
        assert_eq!(res, Ok(PebblesEvent::GameRestarted));

        let current_state = game.state().unwrap();
        assert_ne!(prev_state, current_state);
    }
}

#[test]
fn invalid_config_is_the_error_of_new() {
    assert_eq!(
        PebblesGame::new(1, 2, DifficultyLevel::Hard, 0, 0).err(),
        Some(GameError::InvalidConfig)
    );
    assert_eq!(
        PebblesGame::new(6, 3, DifficultyLevel::Hard, 0, 0).err(),
        Some(GameError::InvalidConfig)
    );
    assert_eq!(
        PebblesGame::validate_max_pebbles_per_turn_and_pebbles_count(2, 1),
        Err(GameError::InvalidConfig)
    );
    assert_eq!(
        PebblesGame::validate_max_pebbles_per_turn_and_pebbles_count(3, 6),
        Err(GameError::InvalidConfig)
    );
}

#[test]
fn config_limits() {
    let check = PebblesGame::validate_max_pebbles_per_turn_and_pebbles_count;
    // The smallest playable game.
    assert_eq!(check(2, 6), Ok(()));
    assert_eq!(check(2, 5), Err(GameError::InvalidConfig));
    // The half is rounded down.
    assert_eq!(check(3, 7), Err(GameError::InvalidConfig));
    assert_eq!(check(3, 8), Ok(()));
    // One pebble per turn is not a game, however large the pile.
    assert_eq!(check(1, 100), Err(GameError::InvalidConfig));
    assert_eq!(check(0, 100), Err(GameError::InvalidConfig));
    assert_eq!(check(2, 2), Err(GameError::InvalidConfig));
    assert_eq!(check(2, 0), Err(GameError::InvalidConfig));
    // The largest numbers there are.
    assert_eq!(check(u32::MAX, u32::MAX), Err(GameError::InvalidConfig));
    assert_eq!(check(u32::MAX / 2, u32::MAX), Err(GameError::InvalidConfig));
    assert_eq!(check(u32::MAX / 2 - 1, u32::MAX), Ok(()));
}

#[test]
fn user_first_on_odd_draw_with_full_pile() {
    for draw in [1u32, 3, 77, u32::MAX] {
        for difficulty in [DifficultyLevel::Easy, DifficultyLevel::Hard] {
            let state = PebblesGame::new(15, 5, difficulty, draw, 4).unwrap().state();
            assert_eq!(
                state,
                GameState {
                    pebbles_count: 15,
                    max_pebbles_per_turn: 5,
                    pebbles_remaining: 15,
                    difficulty,
                    first_player: Player::User,
                    winner: None,
                }
            );
        }
    }
}

#[test]
fn program_first_on_even_draw_opens_at_once() {
    // Hard: 15 mod 6 = 3.
    let state = PebblesGame::new(15, 5, DifficultyLevel::Hard, 0, 4).unwrap().state();
    assert_eq!(
        state,
        GameState {
            pebbles_count: 15,
            max_pebbles_per_turn: 5,
            pebbles_remaining: 12,
            difficulty: DifficultyLevel::Hard,
            first_player: Player::Program,
            winner: None,
        }
    );
    // Hard on a multiple of 6: the maximum.
    let state = PebblesGame::new(18, 5, DifficultyLevel::Hard, 2, 4).unwrap().state();
    assert_eq!(state.pebbles_remaining, 13);
    // Easy: 4 mod 5 + 1 = 5.
    let state = PebblesGame::new(15, 5, DifficultyLevel::Easy, u32::MAX - 1, 4).unwrap().state();
    assert_eq!(state.pebbles_remaining, 10);
    assert_eq!(state.first_player, Player::Program);
    assert_eq!(state.winner, None);
}

#[test]
fn opening_pile_stays_within_one_move_of_the_full_pile() {
    for (pebbles_count, max_pebbles_per_turn) in [(6u32, 2u32), (15, 5), (100, 49), (u32::MAX, 1000)] {
        for difficulty in [DifficultyLevel::Easy, DifficultyLevel::Hard] {
            for first_player_draw in 0..6u32 {
                for removal_draw in [0u32, 1, 2, 3, 48, 49, 999, 1000, u32::MAX] {
                    let state = PebblesGame::new(
                        pebbles_count,
                        max_pebbles_per_turn,
                        difficulty,
                        first_player_draw,
                        removal_draw,
                    )
                    .unwrap()
                    .state();
                    assert!(state.pebbles_remaining <= pebbles_count);
                    match state.first_player {
                        Player::Program => {
                            assert_eq!(first_player_draw % 2, 0);
                            assert!(state.pebbles_remaining >= pebbles_count - max_pebbles_per_turn);
                            assert!(state.pebbles_remaining < pebbles_count);
                        }
                        Player::User => {
                            assert_eq!(first_player_draw % 2, 1);
                            assert_eq!(state.pebbles_remaining, pebbles_count);
                        }
                    }
                    assert_eq!(state.winner, None);
                }
            }
        }
    }
}

#[test]
fn restart_shows_the_new_configuration() {
    let mut game = new_game(DifficultyLevel::Easy, Some(15), Some(5), 1, 0);
    assert_eq!(game.handle(PebblesAction::Turn(5), 0, 4), Ok(PebblesEvent::CounterTurn(5)));
    assert_eq!(game.handle(PebblesAction::GiveUp, 0, 0), Ok(PebblesEvent::Won(Player::Program)));
    let res = game.handle(
        PebblesAction::Restart {
            difficulty: DifficultyLevel::Hard,
            pebbles_count: 20,
            max_pebbles_per_turn: 2,
        },
        1,
        0,
    );
    assert_eq!(res, Ok(PebblesEvent::GameRestarted));
    assert_eq!(
        game.state(),
        Ok(GameState {
            pebbles_count: 20,
            max_pebbles_per_turn: 2,
            pebbles_remaining: 20,
            difficulty: DifficultyLevel::Hard,
            first_player: Player::User,
            winner: None,
        })
    );
}

#[test]
fn restart_with_program_first_opens_at_once() {
    let mut game = new_game(DifficultyLevel::Easy, Some(15), Some(5), 1, 0);
    let res = game.handle(
        PebblesAction::Restart {
            difficulty: DifficultyLevel::Hard,
            pebbles_count: 20,
            max_pebbles_per_turn: 2,
        },
        4,
        0,
    );
    assert_eq!(res, Ok(PebblesEvent::GameRestarted));
    let state = game.state().unwrap();
    // 20 mod 3 = 2.
    assert_eq!(state.pebbles_remaining, 18);
    assert_eq!(state.first_player, Player::Program);
}

#[test]
fn failed_restart_keeps_the_old_game() {
    let mut game = new_game(DifficultyLevel::Easy, Some(15), Some(5), 1, 0);
    assert_eq!(game.handle(PebblesAction::Turn(1), 0, 1), Ok(PebblesEvent::CounterTurn(2)));
    let before = game.state().unwrap();
    let res = game.handle(
        PebblesAction::Restart {
            difficulty: DifficultyLevel::Hard,
            pebbles_count: 6,
            max_pebbles_per_turn: 3,
        },
        0,
        0,
    );
    assert_eq!(res, Err(GameError::InvalidConfig));
    assert_eq!(game.state(), Ok(before));
    assert_eq!(before.pebbles_remaining, 12);
}

#[test]
fn failed_restart_of_a_game_keeps_it() {
    let mut game = PebblesGame::new(15, 5, DifficultyLevel::Hard, 1, 0).unwrap();
    let before = game.state();
    assert_eq!(
        game.restart(DifficultyLevel::Easy, 2, 2, 0, 0),
        Err(GameError::InvalidConfig)
    );
    assert_eq!(game.state(), before);
    assert_eq!(
        game.restart(DifficultyLevel::Easy, 8, 3, 1, 0),
        Ok(PebblesEvent::GameRestarted)
    );
    assert_eq!(game.state().pebbles_count, 8);
    assert_eq!(game.state().max_pebbles_per_turn, 3);
    assert_eq!(game.state().difficulty, DifficultyLevel::Easy);
}

#[test]
fn failed_init_leaves_the_dispatcher_empty() {
    let mut game = Dispatcher::new();
    let res = game.init(
        PebblesInit {
            difficulty: DifficultyLevel::Easy,
            pebbles_count: 4,
            max_pebbles_per_turn: 2,
        },
        0,
        0,
    );
    assert_eq!(res, Err(GameError::InvalidConfig));
    assert_eq!(game.state(), Err(GameError::Uninitialized));
}

#[test]
fn failed_init_keeps_a_game_that_is_there() {
    let mut game = new_game(DifficultyLevel::Hard, None, None, 0, 0);
    let before = game.state();
    let res = game.init(
        PebblesInit {
            difficulty: DifficultyLevel::Easy,
            pebbles_count: 4,
            max_pebbles_per_turn: 2,
        },
        0,
        0,
    );
    assert_eq!(res, Err(GameError::InvalidConfig));
    assert_eq!(game.state(), before);
}

#[test]
fn requests_before_init_are_rejected() {
    let mut game = Dispatcher::new();
    assert_eq!(game.state(), Err(GameError::Uninitialized));
    assert_eq!(game.handle(PebblesAction::Turn(1), 0, 0), Err(GameError::Uninitialized));
    assert_eq!(
        game.handle(
            PebblesAction::Restart {
                difficulty: DifficultyLevel::Hard,
                pebbles_count: 20,
                max_pebbles_per_turn: 2,
            },
            0,
            0,
        ),
        Err(GameError::Uninitialized)
    );
    assert_eq!(game.state(), Err(GameError::Uninitialized));
}

#[test]
fn reading_the_state_changes_nothing() {
    let game = new_game(DifficultyLevel::Hard, None, None, 0, 0);
    let first = game.state();
    let second = game.state();
    assert!(first.is_ok());
    assert_eq!(first, second);
}

#[test]
fn a_clone_is_a_game_of_its_own() {
    let mut game = PebblesGame::new(15, 5, DifficultyLevel::Hard, 1, 0).unwrap();
    let copy = game.clone();
    assert_eq!(copy.state(), game.state());
    assert_eq!(game.turn(3, 0), Ok(PebblesEvent::CounterTurn(5)));
    assert_eq!(copy.state().pebbles_remaining, 15);
    assert_eq!(game.state().pebbles_remaining, 7);
}

#[test]
fn second_init_replaces_the_game() {
    let mut game = new_game(DifficultyLevel::Easy, Some(15), Some(5), 1, 0);
    assert_eq!(game.handle(PebblesAction::GiveUp, 0, 0), Ok(PebblesEvent::Won(Player::Program)));
    let res = game.init(
        PebblesInit {
            difficulty: DifficultyLevel::Hard,
            pebbles_count: 30,
            max_pebbles_per_turn: 4,
        },
        3,
        0,
    );
    assert_eq!(res, Ok(()));
    assert_eq!(
        game.state(),
        Ok(GameState {
            pebbles_count: 30,
            max_pebbles_per_turn: 4,
            pebbles_remaining: 30,
            difficulty: DifficultyLevel::Hard,
            first_player: Player::User,
            winner: None,
        })
    );
}

#[test]
fn a_new_game_has_pebbles_and_no_winner() {
    for first_player_draw in 0..2u32 {
        let game = PebblesGame::new(6, 2, DifficultyLevel::Easy, first_player_draw, 1).unwrap();
        assert!(!game.pebbles_remaining_empty());
        assert_eq!(game.state().winner, None);
        assert_eq!(game.validate_turn_remove_count(1), Ok(()));
        assert_eq!(game.validate_turn_remove_count(2), Ok(()));
        assert_eq!(game.validate_turn_remove_count(3), Err(GameError::InvalidTurn));
    }
}
