//! The engine that a service keeps: at most one game, set up once and then
//! played request by request.
//!
//! The engine draws from a [`RandomSource`] as the game goes, one word for
//! each coin flip and one for each move that the program has to draw, and
//! none where none is needed.

use vstd::prelude::*;

use crate::game::{
    check_config, config_error, consumes_word, next_state, opening_consumes_word,
    opening_needs_word, reply_to, started_game,
};
use crate::random::{draw_if_needed, drew, RandomSource};
use crate::types::{GameError, GameState, PebblesAction, PebblesEvent, PebblesInit};

verus! {

/// What it is to have drawn the second word of a set-up, after the coin:
/// `drawn` was drawn from `between` where the opening move needs a word.
pub open spec fn second_word<R: RandomSource>(
    init: PebblesInit,
    coin: u32,
    between: R,
    after: R,
    drawn: Result<u32, GameError>,
) -> bool {
    drew(between, opening_consumes_word(init, coin), drawn, after)
}

/// What it is to have set up a game from `init` with the words of a source
/// that was `before` and is `after`. Where a number of `init` is 0 the set-up
/// is refused and nothing is drawn. Else the coin is drawn, and then the word
/// of the opening move where that move needs one; the game is the one that
/// these two words start, and there is none if either word did not come.
pub open spec fn set_up<R: RandomSource>(
    init: PebblesInit,
    before: R,
    after: R,
    outcome: Result<GameState, GameError>,
) -> bool {
    match config_error(init.pebbles_count, init.max_pebbles_per_turn) {
        Some(e) => outcome == Err::<GameState, GameError>(e) && after == before,
        None => exists|flip: Result<u32, GameError>, between: R|
            {
                &&& #[trigger] drew(before, true, flip, between)
                &&& match flip {
                    Err(e) => outcome == Err::<GameState, GameError>(e) && after == between,
                    Ok(coin) => exists|drawn: Result<u32, GameError>|
                        {
                            &&& #[trigger] second_word(init, coin, between, after, drawn)
                            &&& outcome == match drawn {
                                Ok(rnd) => Ok::<GameState, GameError>(
                                    started_game(init, coin, rnd),
                                ),
                                Err(e) => Err(e),
                            }
                        },
                }
            },
    }
}

/// The holder of the one game of a service. It holds none until `init` has
/// set one up.
pub struct GameEngine {
    game: Option<GameState>,
}

impl View for GameEngine {
    type V = Option<GameState>;

    /// The game that the engine holds, if it holds one.
    closed spec fn view(&self) -> Option<GameState> {
        self.game
    }
}

impl GameEngine {
    #[verifier::type_invariant]
    spec fn holds_played_game(self) -> bool {
        self.game matches Some(game) ==> game.wf()
    }

    /// What the engine answers when asked for its game: a function of what
    /// the engine holds, and of nothing else.
    pub open spec fn snapshot(self) -> Result<GameState, GameError> {
        match self@ {
            Some(game) => Ok(game),
            None => Err(GameError::Uninitialized),
        }
    }

    /// An engine that holds no game.
    pub fn new() -> (engine: GameEngine)
        ensures
            engine@ is None,
    {
        GameEngine { game: None }
    }

    /// Sets up the game: flips a coin for the side that moves first and, if
    /// that is the program, makes its opening move. The coin is the first
    /// word drawn from `rng`; a second word is drawn where the program has to
    /// draw its move, and only there. A game that the engine already holds is
    /// replaced.
    ///
    /// It fails where one of the two numbers of `init` is 0, and nothing is
    /// drawn then; and where `rng` gives no word when one is needed. The
    /// engine is left as it was.
    pub fn init<R: RandomSource>(&mut self, init: &PebblesInit, rng: &mut R) -> (done: Result<
        (),
        GameError,
    >)
        ensures
            set_up(
                *init,
                *old(rng),
                *final(rng),
                match done {
                    Ok(()) => Ok(final(self)@->0),
                    Err(e) => Err(e),
                },
            ),
            done is Ok ==> final(self)@ is Some,
            done is Err ==> final(self)@ == old(self)@,
            final(self)@ matches Some(game) ==> game.wf(),
    {
        proof {
            use_type_invariant(&*self);
        }
        match check_config(init.pebbles_count, init.max_pebbles_per_turn) {
            Err(e) => {
                return Err(e);
            },
            Ok(()) => {},
        }
        let coin: u32 = match draw_if_needed(true, rng) {
            Ok(coin) => coin,
            Err(e) => {
                return Err(e);
            },
        };
        let ghost between = *rng;
        let drawn = draw_if_needed(opening_needs_word(init, coin), rng);
        assert(second_word(*init, coin, between, *rng, drawn));
        let rnd: u32 = match drawn {
            Ok(rnd) => rnd,
            Err(e) => {
                return Err(e);
            },
        };
        match GameState::start(init, coin, rnd) {
            Ok(game) => {
                self.game = Some(game);
                Ok(())
            },
            Err(e) => Err(e),
        }
    }

    /// Carries out one request on the game. A word is drawn from `rng` where
    /// the request consumes one, and only there, and the request is carried
    /// out on that word as [`GameState::apply`] says.
    ///
    /// It fails where the engine holds no game, where the game turns the
    /// request down, and where `rng` gives no word when one is needed. The
    /// engine is then left as it was.
    pub fn handle<R: RandomSource>(&mut self, action: PebblesAction, rng: &mut R) -> (reply:
        Result<Option<PebblesEvent>, GameError>)
        ensures
            match old(self)@ {
                None => {
                    &&& reply == Err::<Option<PebblesEvent>, GameError>(GameError::Uninitialized)
                    &&& final(self)@ is None
                    &&& *final(rng) == *old(rng)
                },
                Some(game) => exists|word: Result<u32, GameError>|
                    {
                        &&& #[trigger] drew(
                            *old(rng),
                            consumes_word(game, action),
                            word,
                            *final(rng),
                        )
                        &&& match word {
                            Ok(rnd) => {
                                &&& final(self)@ == Some(next_state(game, action, rnd))
                                &&& reply == reply_to(game, action, rnd)
                            },
                            Err(e) => {
                                &&& final(self)@ == old(self)@
                                &&& reply == Err::<Option<PebblesEvent>, GameError>(e)
                            },
                        }
                    },
            },
            final(self)@ matches Some(game) ==> game.wf(),
    {
        proof {
            use_type_invariant(&*self);
        }
        let mut game: GameState = match self.game {
            Some(game) => game,
            None => {
                return Err(GameError::Uninitialized);
            },
        };
        let rnd: u32 = match draw_if_needed(game.needs_word(action), rng) {
            Ok(rnd) => rnd,
            Err(e) => {
                return Err(e);
            },
        };
        let reply = game.apply(action, rnd);
        self.game = Some(game);
        reply
    }

    /// The game as it stands. The engine is not changed and the answer
    /// depends on nothing but the engine, so that the same question asked
    /// again, with no request in between, gets the same answer.
    ///
    /// It fails, with [`GameError::Uninitialized`], where the engine holds no
    /// game.
    pub fn state(&self) -> (answer: Result<GameState, GameError>)
        ensures
            answer == self.snapshot(),
            answer matches Ok(game) ==> game.wf(),
    {
        proof {
            use_type_invariant(self);
        }
        match self.game {
            Some(game) => Ok(game),
            None => Err(GameError::Uninitialized),
        }
    }
}

} // verus!
