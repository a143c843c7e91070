//! How the program picks the number of pebbles it removes.
//!
//! A move never takes more than the pile holds: where the pile is smaller
//! than the largest turn, the range of a draw shrinks to the pile.

use vstd::prelude::*;

use crate::random::{draw_if_needed, drew, RandomSource};
use crate::types::{DifficultyLevel, GameError};

verus! {

/// The most pebbles that one move may take from a pile of `remaining`.
pub open spec fn move_limit(remaining: nat, max: nat) -> nat {
    if remaining < max {
        remaining
    } else {
        max
    }
}

/// Whether a move that takes `taken` pebbles is allowed.
pub open spec fn legal_move(remaining: nat, max: nat, taken: nat) -> bool {
    1 <= taken <= move_limit(remaining, max)
}

/// The move that the random word `rnd` stands for: the words are spread over
/// the allowed moves by their remainder.
pub open spec fn easy_choice(remaining: nat, max: nat, rnd: u32) -> nat
    recommends
        remaining >= 1,
        max >= 1,
{
    (rnd as nat) % move_limit(remaining, max) + 1
}

/// The closed-form move of the hard level, where 0 says that there is none.
pub open spec fn hard_target(remaining: nat, max: nat) -> nat
    recommends
        remaining >= 1,
{
    ((remaining - 1) % (max + 1) as int) as nat
}

/// Whether the program has to draw its move from a pile of `remaining`.
pub open spec fn needs_draw(difficulty: DifficultyLevel, remaining: nat, max: nat) -> bool {
    difficulty == DifficultyLevel::Easy || hard_target(remaining, max) == 0
}

/// The program's move, where `rnd` is the word it draws if it has to draw.
pub open spec fn program_choice(
    difficulty: DifficultyLevel,
    remaining: nat,
    max: nat,
    rnd: u32,
) -> nat {
    if needs_draw(difficulty, remaining, max) {
        easy_choice(remaining, max, rnd)
    } else {
        hard_target(remaining, max)
    }
}

/// Every move that the program can choose is allowed.
pub proof fn lemma_program_choice_is_legal(
    difficulty: DifficultyLevel,
    remaining: nat,
    max: nat,
    rnd: u32,
)
    requires
        remaining >= 1,
        max >= 1,
    ensures
        legal_move(remaining, max, program_choice(difficulty, remaining, max, rnd)),
{
    let limit = move_limit(remaining, max);
    assert(0 <= (rnd as nat) % limit < limit) by (nonlinear_arith)
        requires
            limit >= 1,
    ;
    let target = hard_target(remaining, max);
    assert(0 <= target <= max && target <= remaining - 1) by (nonlinear_arith)
        requires
            target == (remaining - 1) % (max + 1) as int,
            remaining >= 1,
            max >= 1,
    ;
}

/// The move of the easy level for the word `rnd`.
pub fn easy_move(pebbles_remaining: u32, max_pebbles_per_turn: u32, rnd: u32) -> (taken: u32)
    requires
        pebbles_remaining >= 1,
        max_pebbles_per_turn >= 1,
    ensures
        taken == easy_choice(pebbles_remaining as nat, max_pebbles_per_turn as nat, rnd),
        legal_move(pebbles_remaining as nat, max_pebbles_per_turn as nat, taken as nat),
{
    let limit: u32 = if pebbles_remaining < max_pebbles_per_turn {
        pebbles_remaining
    } else {
        max_pebbles_per_turn
    };
    rnd % limit + 1
}

/// The closed-form move of the hard level: the pile less one, reduced modulo
/// the largest turn plus one. It is 0 where the level has no such move.
pub fn forcing_move(pebbles_remaining: u32, max_pebbles_per_turn: u32) -> (taken: u32)
    requires
        pebbles_remaining >= 1,
    ensures
        taken == hard_target(pebbles_remaining as nat, max_pebbles_per_turn as nat),
        taken < pebbles_remaining,
        taken <= max_pebbles_per_turn,
{
    let modulus: u64 = max_pebbles_per_turn as u64 + 1;
    let target: u64 = (pebbles_remaining - 1) as u64 % modulus;
    assert(target <= pebbles_remaining - 1) by (nonlinear_arith)
        requires
            target == (pebbles_remaining - 1) % (modulus as int),
            pebbles_remaining >= 1,
            modulus >= 1,
    ;
    target as u32
}

/// The program's move at `difficulty`, where `rnd` is the word it would draw.
/// The word is looked at only where `needs_draw` holds.
pub fn choose_move(
    difficulty: DifficultyLevel,
    pebbles_remaining: u32,
    max_pebbles_per_turn: u32,
    rnd: u32,
) -> (taken: u32)
    requires
        pebbles_remaining >= 1,
        max_pebbles_per_turn >= 1,
    ensures
        taken == program_choice(
            difficulty,
            pebbles_remaining as nat,
            max_pebbles_per_turn as nat,
            rnd,
        ),
        legal_move(pebbles_remaining as nat, max_pebbles_per_turn as nat, taken as nat),
{
    match difficulty {
        DifficultyLevel::Easy => easy_move(pebbles_remaining, max_pebbles_per_turn, rnd),
        DifficultyLevel::Hard => {
            let target: u32 = forcing_move(pebbles_remaining, max_pebbles_per_turn);
            if target == 0 {
                easy_move(pebbles_remaining, max_pebbles_per_turn, rnd)
            } else {
                target
            }
        },
    }
}

/// Whether the program has to draw its move from this pile.
pub fn move_needs_draw(
    difficulty: DifficultyLevel,
    pebbles_remaining: u32,
    max_pebbles_per_turn: u32,
) -> (needed: bool)
    requires
        pebbles_remaining >= 1,
    ensures
        needed == needs_draw(difficulty, pebbles_remaining as nat, max_pebbles_per_turn as nat),
{
    match difficulty {
        DifficultyLevel::Easy => true,
        DifficultyLevel::Hard => forcing_move(pebbles_remaining, max_pebbles_per_turn) == 0,
    }
}

/// The move of the hard level. It draws from `rng` only where the level has
/// no closed-form move, and then plays as the easy level does on the word
/// drawn.
///
/// It fails, with [`GameError::RandomUnavailable`], where it has to draw and
/// `rng` gives no word, and nowhere else.
pub fn find_best_move<R: RandomSource>(
    pebbles_remaining: u32,
    max_pebbles_per_turn: u32,
    rng: &mut R,
) -> (taken: Result<u32, GameError>)
    requires
        pebbles_remaining >= 1,
        max_pebbles_per_turn >= 1,
    ensures
        exists|word: Result<u32, GameError>|
            {
                &&& #[trigger] drew(
                    *old(rng),
                    needs_draw(
                        DifficultyLevel::Hard,
                        pebbles_remaining as nat,
                        max_pebbles_per_turn as nat,
                    ),
                    word,
                    *final(rng),
                )
                &&& taken == match word {
                    Ok(rnd) => Ok::<u32, GameError>(
                        program_choice(
                            DifficultyLevel::Hard,
                            pebbles_remaining as nat,
                            max_pebbles_per_turn as nat,
                            rnd,
                        ) as u32,
                    ),
                    Err(e) => Err(e),
                }
            },
        taken matches Ok(m) ==> legal_move(
            pebbles_remaining as nat,
            max_pebbles_per_turn as nat,
            m as nat,
        ),
{
    let target: u32 = forcing_move(pebbles_remaining, max_pebbles_per_turn);
    let word = draw_if_needed(target == 0, rng);
    assert(drew(
        *old(rng),
        needs_draw(DifficultyLevel::Hard, pebbles_remaining as nat, max_pebbles_per_turn as nat),
        word,
        *rng,
    ));
    match word {
        Ok(rnd) => {
            let taken: u32 = if target == 0 {
                easy_move(pebbles_remaining, max_pebbles_per_turn, rnd)
            } else {
                target
            };
            Ok(taken)
        },
        Err(e) => Err(e),
    }
}

} // verus!
