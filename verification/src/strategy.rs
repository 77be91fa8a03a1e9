//! How the program chooses its move.
//!
//! At difficulty `Easy` the move is a draw reduced to the range from one to
//! the per-turn maximum. At difficulty `Hard` the program plays the winning
//! strategy of the subtraction game: it leaves the user a pile that is a
//! multiple of the per-turn maximum plus one whenever it can, because from
//! such a pile no single move empties the pile or reaches another multiple.

use vstd::prelude::*;
use vstd::arithmetic::div_mod::{lemma_fundamental_div_mod, lemma_mod_multiples_basic};
use crate::game::PebblesGame;
use crate::types::DifficultyLevel;

verus! {

/// The `Easy` move: the draw modulo the per-turn maximum, plus one.
#[verifier::inline]
pub open spec fn easy_removal(draw: int, max_per_turn: int) -> int {
    draw % max_per_turn + 1
}

/// The `Hard` move: the pile modulo one more than the per-turn maximum, or
/// the per-turn maximum itself where that remainder is zero.
#[verifier::inline]
pub open spec fn hard_removal(pile: int, max_per_turn: int) -> int {
    let remainder = pile % (max_per_turn + 1);
    if remainder == 0 {
        max_per_turn
    } else {
        remainder
    }
}

/// The number of pebbles the program removes from `pile`.
#[verifier::inline]
pub open spec fn program_removal(
    difficulty: DifficultyLevel,
    pile: int,
    max_per_turn: int,
    draw: int,
) -> int {
    match difficulty {
        DifficultyLevel::Easy => easy_removal(draw, max_per_turn),
        DifficultyLevel::Hard => hard_removal(pile, max_per_turn),
    }
}

/// A pile that the mover cannot win from against the `Hard` strategy: a
/// multiple of one more than the per-turn maximum.
#[verifier::inline]
pub open spec fn losing_pile(pile: int, max_per_turn: int) -> bool {
    pile % (max_per_turn + 1) == 0
}

/// Whatever the difficulty, the pile and the draw, the program removes at
/// least one pebble and at most the per-turn maximum.
pub proof fn lemma_removal_in_range(
    difficulty: DifficultyLevel,
    pile: int,
    max_per_turn: int,
    draw: int,
)
    requires
        0 <= pile,
        1 <= max_per_turn,
        0 <= draw,
    ensures
        1 <= program_removal(difficulty, pile, max_per_turn, draw) <= max_per_turn,
{
}

/// From a pile that is not a multiple of one more than the per-turn maximum,
/// the `Hard` move never takes more than the pile holds and leaves such a
/// multiple behind.
pub proof fn lemma_hard_removal_leaves_losing_pile(pile: int, max_per_turn: int)
    requires
        0 <= pile,
        1 <= max_per_turn,
        !losing_pile(pile, max_per_turn),
    ensures
        1 <= hard_removal(pile, max_per_turn) <= pile,
        losing_pile(pile - hard_removal(pile, max_per_turn), max_per_turn),
{
    let d = max_per_turn + 1;
    lemma_fundamental_div_mod(pile, d);
    assert(pile - pile % d == (pile / d) * d) by (nonlinear_arith)
        requires
            pile == d * (pile / d) + pile % d,
    ;
    lemma_mod_multiples_basic(pile / d, d);
}

/// From a pile that is a positive multiple of one more than the per-turn
/// maximum, no allowed move empties the pile, and none reaches another such
/// multiple.
pub proof fn lemma_no_escape_from_losing_pile(pile: int, max_per_turn: int, remove_count: int)
    requires
        0 < pile,
        1 <= max_per_turn,
        losing_pile(pile, max_per_turn),
        1 <= remove_count <= max_per_turn,
    ensures
        0 < pile - remove_count,
        !losing_pile(pile - remove_count, max_per_turn),
{
    let d = max_per_turn + 1;
    lemma_fundamental_div_mod(pile, d);
    lemma_fundamental_div_mod(pile - remove_count, d);
    let q = pile / d;
    let q2 = (pile - remove_count) / d;
    assert(q >= 1) by (nonlinear_arith)
        requires
            pile == d * q,
            0 < pile,
            0 < d,
    ;
    assert(pile >= d) by (nonlinear_arith)
        requires
            pile == d * q,
            q >= 1,
            0 < d,
    ;
    if losing_pile(pile - remove_count, max_per_turn) {
        assert(remove_count == d * (q - q2)) by (nonlinear_arith)
            requires
                pile == d * q,
                pile - remove_count == d * q2,
        ;
        assert(false) by (nonlinear_arith)
            requires
                remove_count == d * (q - q2),
                1 <= remove_count < d,
        ;
    }
}

impl PebblesGame {
    /// The number of pebbles the program removes from a pile of
    /// `pebbles_remaining`. `draw` is a random number; only `Easy` reads it.
    pub fn get_program_remove_count(
        difficulty: &DifficultyLevel,
        pebbles_remaining: u32,
        max_pebbles_per_turn: u32,
        draw: u32,
    ) -> (remove_count: u32)
        requires
            max_pebbles_per_turn >= 1,
        ensures
            remove_count == program_removal(
                *difficulty,
                pebbles_remaining as int,
                max_pebbles_per_turn as int,
                draw as int,
            ),
            1 <= remove_count <= max_pebbles_per_turn,
            *difficulty == DifficultyLevel::Hard && !losing_pile(
                pebbles_remaining as int,
                max_pebbles_per_turn as int,
            ) ==> remove_count <= pebbles_remaining && losing_pile(
                pebbles_remaining - remove_count,
                max_pebbles_per_turn as int,
            ),
    {
        match difficulty {
            DifficultyLevel::Easy => draw % max_pebbles_per_turn + 1,
            DifficultyLevel::Hard => {
                let modulus: u64 = max_pebbles_per_turn as u64 + 1;
                let remainder: u64 = pebbles_remaining as u64 % modulus;
                proof {
                    if remainder != 0 {
                        lemma_hard_removal_leaves_losing_pile(
                            pebbles_remaining as int,
                            max_pebbles_per_turn as int,
                        );
                    }
                }
                if remainder == 0 {
                    max_pebbles_per_turn
                } else {
                    remainder as u32
                }
            },
        }
    }
}

} // verus!
