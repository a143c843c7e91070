//! The game apart from any player: which piles the side to move can win
//! from, and what piles the hard level hands to its opponent.

use vstd::arithmetic::div_mod::{
    lemma_fundamental_div_mod, lemma_mod_multiples_vanish, lemma_small_mod,
};
use vstd::prelude::*;

use crate::strategy::{hard_target, legal_move, move_limit, program_choice};
use crate::types::DifficultyLevel;

verus! {

/// Whether the side to move can win from a pile of `pile` pebbles whatever
/// the other side does. The side that empties the pile wins, so the side to
/// move at an empty pile has lost; elsewhere it wins by a move that leaves
/// the other side a pile from which that side cannot win.
pub open spec fn mover_wins(pile: nat, max: nat) -> bool
    decreases pile,
{
    exists|taken: nat| #[trigger]
        legal_move(pile, max, taken) && !mover_wins((pile - taken) as nat, max)
}

/// Taking the remainder of a pile by `max + 1` leaves a multiple of `max + 1`.
proof fn lemma_taking_remainder_leaves_multiple(pile: int, modulus: int)
    requires
        pile >= 0,
        modulus >= 1,
    ensures
        0 <= pile % modulus <= pile,
        (pile - pile % modulus) % modulus == 0,
{
    lemma_fundamental_div_mod(pile, modulus);
    lemma_mod_multiples_vanish(pile / modulus, 0, modulus);
    lemma_small_mod(0, modulus as nat);
    assert(0 <= pile % modulus <= pile) by (nonlinear_arith)
        requires
            pile >= 0,
            modulus >= 1,
    ;
}

/// No move takes a multiple of `max + 1` to another one.
proof fn lemma_move_from_multiple_leaves_none(pile: int, modulus: int, taken: int)
    requires
        pile >= 0,
        pile % modulus == 0,
        1 <= taken < modulus,
    ensures
        (pile - taken) % modulus == modulus - taken,
{
    lemma_fundamental_div_mod(pile, modulus);
    lemma_mod_multiples_vanish(pile / modulus - 1, modulus - taken, modulus);
    lemma_small_mod((modulus - taken) as nat, modulus as nat);
    assert(modulus * (pile / modulus - 1) + (modulus - taken) == pile - taken)
        by (nonlinear_arith)
        requires
            pile == modulus * (pile / modulus) + 0,
    ;
}

/// The side to move can force a win if and only if the pile is no multiple
/// of `max + 1`. So a side that has to move at a multiple of `max + 1` loses
/// against an opponent that makes no mistake.
pub proof fn lemma_mover_wins_iff_pile_is_no_multiple(pile: nat, max: nat)
    requires
        max >= 1,
    ensures
        mover_wins(pile, max) <==> pile % (max + 1) != 0,
    decreases pile,
{
    let modulus = (max + 1) as int;
    if pile % (max + 1) != 0 {
        let taken = pile % (max + 1);
        lemma_taking_remainder_leaves_multiple(pile as int, modulus);
        assert(taken < max + 1) by (nonlinear_arith)
            requires
                taken == pile % (max + 1),
                max + 1 >= 1,
        ;
        lemma_mover_wins_iff_pile_is_no_multiple((pile - taken) as nat, max);
        assert(legal_move(pile, max, taken));
        assert(!mover_wins((pile - taken) as nat, max));
    } else {
        assert forall|taken: nat| #[trigger] legal_move(pile, max, taken) implies mover_wins(
            (pile - taken) as nat,
            max,
        ) by {
            lemma_move_from_multiple_leaves_none(pile as int, modulus, taken as int);
            lemma_mover_wins_iff_pile_is_no_multiple((pile - taken) as nat, max);
        }
    }
}

/// The closed-form move of the hard level leaves a pile that is one over a
/// multiple of `max + 1`.
pub proof fn lemma_forcing_move_leaves_one_over_multiple(pile: nat, max: nat)
    requires
        pile >= 1,
        max >= 1,
        hard_target(pile, max) != 0,
    ensures
        legal_move(pile, max, hard_target(pile, max)),
        (pile - hard_target(pile, max)) % (max + 1) as int == 1,
{
    let modulus = (max + 1) as int;
    let target = hard_target(pile, max) as int;
    lemma_taking_remainder_leaves_multiple(pile - 1, modulus);
    assert(target < modulus) by (nonlinear_arith)
        requires
            target == (pile - 1) % modulus,
            modulus >= 1,
    ;
    lemma_fundamental_div_mod(pile - 1, modulus);
    lemma_mod_multiples_vanish((pile - 1) / modulus, 1, modulus);
    lemma_small_mod(1, modulus as nat);
}

/// After the closed-form move of the hard level, the opponent is the side
/// that can force a win.
pub proof fn lemma_forcing_move_hands_over_winning_pile(pile: nat, max: nat)
    requires
        pile >= 1,
        max >= 1,
        hard_target(pile, max) != 0,
    ensures
        mover_wins((pile - hard_target(pile, max)) as nat, max),
{
    lemma_forcing_move_leaves_one_over_multiple(pile, max);
    lemma_mover_wins_iff_pile_is_no_multiple((pile - hard_target(pile, max)) as nat, max);
}

/// From a pile that is no multiple of `max + 1`, the hard level hands its
/// opponent a multiple of `max + 1` in one case only: the pile is one over a
/// multiple, so that the level has to draw, and the word drawn stands for a
/// single pebble.
pub proof fn lemma_hard_move_leaves_multiple_exactly_when(pile: nat, max: nat, rnd: u32)
    requires
        pile >= 1,
        max >= 1,
    ensures
        (pile % (max + 1) != 0 && (pile - program_choice(DifficultyLevel::Hard, pile, max, rnd))
            % (max + 1) as int == 0) <==> (pile % (max + 1) == 1 && (rnd as nat) % move_limit(
            pile,
            max,
        ) == 0),
{
    let modulus = (max + 1) as int;
    let target = hard_target(pile, max) as int;
    lemma_fundamental_div_mod(pile - 1, modulus);
    lemma_fundamental_div_mod(pile as int, modulus);
    assert(0 <= target < modulus) by (nonlinear_arith)
        requires
            target == (pile - 1) % modulus,
            modulus >= 1,
    ;
    if target != 0 {
        lemma_forcing_move_leaves_one_over_multiple(pile, max);
        // The pile is `target + 1` over a multiple, and `target + 1` is not 1.
        lemma_mod_multiples_vanish((pile - 1) / modulus, target + 1, modulus);
        if target + 1 < modulus {
            lemma_small_mod((target + 1) as nat, modulus as nat);
        } else {
            lemma_mod_multiples_vanish(1, 0, modulus);
            lemma_small_mod(0, modulus as nat);
        }
    } else {
        // The pile is one over a multiple, and the level draws.
        lemma_mod_multiples_vanish((pile - 1) / modulus, 1, modulus);
        lemma_small_mod(1, modulus as nat);
        let limit = move_limit(pile, max) as int;
        let drawn = (rnd as int) % limit + 1;
        assert(1 <= drawn <= limit) by (nonlinear_arith)
            requires
                drawn == (rnd as int) % limit + 1,
                limit >= 1,
        ;
        if drawn == 1 {
            lemma_mod_multiples_vanish((pile - 1) / modulus, 0, modulus);
            lemma_small_mod(0, modulus as nat);
        } else {
            lemma_mod_multiples_vanish((pile - 1) / modulus - 1, modulus + 1 - drawn, modulus);
            lemma_small_mod((modulus + 1 - drawn) as nat, modulus as nat);
            assert(modulus * ((pile - 1) / modulus - 1) + (modulus + 1 - drawn) == pile - drawn)
                by (nonlinear_arith)
                requires
                    pile - 1 == modulus * ((pile - 1) / modulus) + 0,
            ;
        }
    }
}

} // verus!
