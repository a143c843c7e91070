//! What holds of every game, however it was played: the games that can be
//! reached from a start by any run of requests and any random words.

use vstd::prelude::*;

use crate::game::{
    action_error, config_error, consumes_word, next_state, opening_consumes_word, reply_to,
    started_game, turn_error,
};
use crate::strategy::lemma_program_choice_is_legal;
use crate::types::{GameError, GameState, PebblesAction, PebblesEvent, PebblesInit};

verus! {

/// One request, with the random word at hand when it was carried out.
pub struct Step {
    pub action: PebblesAction,
    pub rnd: u32,
}

/// The game that `start` has become after the requests of `steps`, in order.
pub open spec fn replay(start: GameState, steps: Seq<Step>) -> GameState
    decreases steps.len(),
{
    if steps.len() == 0 {
        start
    } else {
        next_state(replay(start, steps.drop_last()), steps.last().action, steps.last().rnd)
    }
}

/// Whether, in the course of `steps`, the user has conceded and the game has
/// not been set up anew since.
pub open spec fn conceded(start: GameState, steps: Seq<Step>) -> bool
    decreases steps.len(),
{
    if steps.len() == 0 {
        false
    } else {
        let earlier = steps.drop_last();
        match steps.last().action {
            PebblesAction::GiveUp => true,
            PebblesAction::Turn(_) => conceded(start, earlier),
            PebblesAction::Restart { .. } => action_error(
                replay(start, earlier),
                steps.last().action,
            ) is Some && conceded(start, earlier),
        }
    }
}

/// A game that is set up with two positive numbers starts well-formed.
pub proof fn lemma_started_game_is_well_formed(init: PebblesInit, coin: u32, rnd: u32)
    requires
        config_error(init.pebbles_count, init.max_pebbles_per_turn) is None,
    ensures
        started_game(init, coin, rnd).wf(),
{
    lemma_program_choice_is_legal(
        init.difficulty,
        init.pebbles_count as nat,
        init.max_pebbles_per_turn as nat,
        rnd,
    );
}

/// No request takes a well-formed game to one that is not.
pub proof fn lemma_step_keeps_game_well_formed(game: GameState, action: PebblesAction, rnd: u32)
    requires
        game.wf(),
    ensures
        next_state(game, action, rnd).wf(),
{
    if let PebblesAction::Turn(taken) = action {
        if turn_error(game, taken) is None && taken < game.pebbles_remaining {
            lemma_program_choice_is_legal(
                game.difficulty,
                (game.pebbles_remaining - taken) as nat,
                game.max_pebbles_per_turn as nat,
                rnd,
            );
        }
    }
}

/// In every game that can be reached, the pile holds no more pebbles than the
/// game was set up with, and the game is well-formed.
pub proof fn lemma_pile_stays_within_count(
    init: PebblesInit,
    coin: u32,
    rnd: u32,
    steps: Seq<Step>,
)
    requires
        config_error(init.pebbles_count, init.max_pebbles_per_turn) is None,
    ensures
        0 <= replay(started_game(init, coin, rnd), steps).pebbles_remaining <= replay(
            started_game(init, coin, rnd),
            steps,
        ).pebbles_count,
        replay(started_game(init, coin, rnd), steps).wf(),
    decreases steps.len(),
{
    if steps.len() == 0 {
        lemma_started_game_is_well_formed(init, coin, rnd);
    } else {
        lemma_pile_stays_within_count(init, coin, rnd, steps.drop_last());
        lemma_step_keeps_game_well_formed(
            replay(started_game(init, coin, rnd), steps.drop_last()),
            steps.last().action,
            steps.last().rnd,
        );
    }
}

/// In every game that can be reached, there is a winner if and only if the
/// pile is empty or the user has conceded since the game was last set up.
pub proof fn lemma_winner_iff_pile_empty_or_conceded(
    init: PebblesInit,
    coin: u32,
    rnd: u32,
    steps: Seq<Step>,
)
    requires
        config_error(init.pebbles_count, init.max_pebbles_per_turn) is None,
    ensures
        replay(started_game(init, coin, rnd), steps).winner is Some <==> replay(
            started_game(init, coin, rnd),
            steps,
        ).pebbles_remaining == 0 || conceded(started_game(init, coin, rnd), steps),
    decreases steps.len(),
{
    let start = started_game(init, coin, rnd);
    if steps.len() == 0 {
        lemma_program_choice_is_legal(
            init.difficulty,
            init.pebbles_count as nat,
            init.max_pebbles_per_turn as nat,
            rnd,
        );
    } else {
        let earlier = steps.drop_last();
        let before = replay(start, earlier);
        lemma_winner_iff_pile_empty_or_conceded(init, coin, rnd, earlier);
        lemma_pile_stays_within_count(init, coin, rnd, earlier);
        lemma_step_keeps_game_well_formed(before, steps.last().action, steps.last().rnd);
    }
}

/// A turn that removes nothing, or more than a turn allows, is turned down
/// and leaves the game as it was, whatever the game and the random word.
pub proof fn lemma_invalid_turn_changes_nothing(game: GameState, taken: u32, rnd: u32)
    requires
        taken == 0 || taken > game.max_pebbles_per_turn,
    ensures
        reply_to(game, PebblesAction::Turn(taken), rnd) is Err,
        next_state(game, PebblesAction::Turn(taken), rnd) == game,
        game.winner is None ==> reply_to(game, PebblesAction::Turn(taken), rnd) == Err::<
            Option<PebblesEvent>,
            GameError,
        >(GameError::InvalidTurn),
{
}

/// Every request that is turned down leaves the game as it was.
pub proof fn lemma_refused_request_changes_nothing(game: GameState, action: PebblesAction, rnd: u32)
    requires
        reply_to(game, action, rnd) is Err,
    ensures
        next_state(game, action, rnd) == game,
{
}

/// Where a request consumes no random word, what it does is the same
/// whatever word is at hand.
pub proof fn lemma_unused_word_is_ignored(
    game: GameState,
    action: PebblesAction,
    rnd: u32,
    other: u32,
)
    requires
        !consumes_word(game, action),
    ensures
        next_state(game, action, rnd) == next_state(game, action, other),
        reply_to(game, action, rnd) == reply_to(game, action, other),
{
}

/// What a game was set up with stays as it is until the game is set up
/// anew: no turn and no concession changes it.
pub proof fn lemma_setup_lasts_until_restart(game: GameState, action: PebblesAction, rnd: u32)
    requires
        !(action is Restart),
    ensures
        next_state(game, action, rnd).pebbles_count == game.pebbles_count,
        next_state(game, action, rnd).max_pebbles_per_turn == game.max_pebbles_per_turn,
        next_state(game, action, rnd).difficulty == game.difficulty,
        next_state(game, action, rnd).first_player == game.first_player,
{
}

/// Where setting up a game consumes no word after the coin, the game that
/// starts is the same whatever word is at hand.
pub proof fn lemma_unused_opening_word_is_ignored(
    init: PebblesInit,
    coin: u32,
    rnd: u32,
    other: u32,
)
    requires
        config_error(init.pebbles_count, init.max_pebbles_per_turn) is None,
        !opening_consumes_word(init, coin),
    ensures
        started_game(init, coin, rnd) == started_game(init, coin, other),
{
}

/// A turn that is accepted leaves fewer pebbles in the pile.
pub proof fn lemma_turn_shrinks_pile(game: GameState, taken: u32, rnd: u32)
    requires
        turn_error(game, taken) is None,
    ensures
        next_state(game, PebblesAction::Turn(taken), rnd).pebbles_remaining
            < game.pebbles_remaining,
{
    if taken < game.pebbles_remaining {
        lemma_program_choice_is_legal(
            game.difficulty,
            (game.pebbles_remaining - taken) as nat,
            game.max_pebbles_per_turn as nat,
            rnd,
        );
    }
}

} // verus!
