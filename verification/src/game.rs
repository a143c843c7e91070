//! The game as a state machine: what a game is at its start and what each
//! request makes of it.
//!
//! Every function here is deterministic. The random words that a game
//! consumes are arguments: `coin` decides who moves first, and `rnd` is the
//! word the program draws when it has to draw its move.

use vstd::prelude::*;

use crate::strategy::{choose_move, move_needs_draw, needs_draw, program_choice};
use crate::types::{
    DifficultyLevel, GameError, GameState, PebblesAction, PebblesEvent, PebblesInit, Player,
};

verus! {

/// Why a game cannot be set up with these numbers, if it cannot.
pub open spec fn config_error(pebbles_count: u32, max_pebbles_per_turn: u32) -> Option<GameError> {
    if pebbles_count == 0 {
        Some(GameError::ZeroPebblesCount)
    } else if max_pebbles_per_turn == 0 {
        Some(GameError::ZeroMaxPebblesPerTurn)
    } else {
        None
    }
}

/// The side that a coin flip picks to move first: the user on an even word.
pub open spec fn first_player_of(coin: u32) -> Player {
    if coin % 2 == 0 {
        Player::User
    } else {
        Player::Program
    }
}

/// A game in which nobody has moved yet.
pub open spec fn fresh_game(
    difficulty: DifficultyLevel,
    pebbles_count: u32,
    max_pebbles_per_turn: u32,
    first_player: Player,
) -> GameState {
    GameState {
        pebbles_count,
        max_pebbles_per_turn,
        pebbles_remaining: pebbles_count,
        difficulty,
        first_player,
        winner: None,
    }
}

/// The game after the program has removed `taken` pebbles: the program has
/// won if that empties the pile.
pub open spec fn after_program_move(game: GameState, taken: nat) -> GameState
    recommends
        taken <= game.pebbles_remaining,
{
    let left = (game.pebbles_remaining - taken) as u32;
    GameState {
        pebbles_remaining: left,
        winner: if left == 0 {
            Some(Player::Program)
        } else {
            game.winner
        },
        ..game
    }
}

/// The game that a request to set one up creates: fresh, and with the
/// program's opening move made if the coin picks the program.
pub open spec fn started_game(init: PebblesInit, coin: u32, rnd: u32) -> GameState {
    let fresh = fresh_game(
        init.difficulty,
        init.pebbles_count,
        init.max_pebbles_per_turn,
        first_player_of(coin),
    );
    if first_player_of(coin) == Player::Program {
        after_program_move(
            fresh,
            program_choice(
                init.difficulty,
                init.pebbles_count as nat,
                init.max_pebbles_per_turn as nat,
                rnd,
            ),
        )
    } else {
        fresh
    }
}

/// Whether setting up a game consumes a second random word after the coin:
/// it does where the coin gives the program the opening move and the program
/// has to draw it.
pub open spec fn opening_consumes_word(init: PebblesInit, coin: u32) -> bool {
    &&& config_error(init.pebbles_count, init.max_pebbles_per_turn) is None
    &&& first_player_of(coin) == Player::Program
    &&& needs_draw(init.difficulty, init.pebbles_count as nat, init.max_pebbles_per_turn as nat)
}

/// Why the user may not remove `taken` pebbles now, if they may not.
pub open spec fn turn_error(game: GameState, taken: u32) -> Option<GameError> {
    if game.winner is Some {
        Some(GameError::GameOver)
    } else if taken == 0 || taken > game.max_pebbles_per_turn || taken > game.pebbles_remaining {
        Some(GameError::InvalidTurn)
    } else {
        None
    }
}

/// The game after the user has removed `taken` pebbles and, unless that
/// emptied the pile, the program has removed `reply`.
pub open spec fn after_turn(game: GameState, taken: u32, reply: nat) -> GameState
    recommends
        turn_error(game, taken) is None,
        reply <= game.pebbles_remaining - taken,
{
    let left = (game.pebbles_remaining - taken) as u32;
    if left == 0 {
        GameState { pebbles_remaining: 0, winner: Some(Player::User), ..game }
    } else {
        after_program_move(GameState { pebbles_remaining: left, ..game }, reply)
    }
}

/// What the game answers to such a turn.
pub open spec fn turn_event(game: GameState, taken: u32, reply: nat) -> PebblesEvent
    recommends
        turn_error(game, taken) is None,
        reply <= game.pebbles_remaining - taken,
{
    let left = game.pebbles_remaining - taken;
    if left == 0 {
        PebblesEvent::Won(Player::User)
    } else if left == reply {
        PebblesEvent::Won(Player::Program)
    } else {
        PebblesEvent::CounterTurn(reply as u32)
    }
}

/// The program's answer to the user's removing `taken` pebbles, where `rnd` is
/// the word it draws if it has to draw.
pub open spec fn reply_move(game: GameState, taken: u32, rnd: u32) -> nat
    recommends
        turn_error(game, taken) is None,
{
    program_choice(
        game.difficulty,
        (game.pebbles_remaining - taken) as nat,
        game.max_pebbles_per_turn as nat,
        rnd,
    )
}

/// Why a request is turned down, if it is.
pub open spec fn action_error(game: GameState, action: PebblesAction) -> Option<GameError> {
    match action {
        PebblesAction::Turn(taken) => turn_error(game, taken),
        PebblesAction::GiveUp => None,
        PebblesAction::Restart { difficulty, pebbles_count, max_pebbles_per_turn } => config_error(
            pebbles_count,
            max_pebbles_per_turn,
        ),
    }
}

/// The game after a request. A request that is turned down leaves the game
/// as it was. In a restart `rnd` is the coin, and no opening move is made.
pub open spec fn next_state(game: GameState, action: PebblesAction, rnd: u32) -> GameState {
    if action_error(game, action) is Some {
        game
    } else {
        match action {
            PebblesAction::Turn(taken) => after_turn(game, taken, reply_move(game, taken, rnd)),
            PebblesAction::GiveUp => GameState { winner: Some(Player::Program), ..game },
            PebblesAction::Restart {
                difficulty,
                pebbles_count,
                max_pebbles_per_turn,
            } => fresh_game(difficulty, pebbles_count, max_pebbles_per_turn, first_player_of(rnd)),
        }
    }
}

/// What the game answers to a request. A restart is answered by no event.
pub open spec fn reply_to(game: GameState, action: PebblesAction, rnd: u32) -> Result<
    Option<PebblesEvent>,
    GameError,
> {
    match action_error(game, action) {
        Some(e) => Err(e),
        None => Ok(
            match action {
                PebblesAction::Turn(taken) => Some(
                    turn_event(game, taken, reply_move(game, taken, rnd)),
                ),
                PebblesAction::GiveUp => Some(PebblesEvent::Won(Player::Program)),
                PebblesAction::Restart { .. } => None,
            },
        ),
    }
}

/// Whether carrying out a request consumes a random word: a restart flips a
/// coin, and a turn that leaves pebbles in the pile is answered by a move
/// that the program may have to draw.
pub open spec fn consumes_word(game: GameState, action: PebblesAction) -> bool {
    action_error(game, action) is None && match action {
        PebblesAction::Turn(taken) => taken < game.pebbles_remaining && needs_draw(
            game.difficulty,
            (game.pebbles_remaining - taken) as nat,
            game.max_pebbles_per_turn as nat,
        ),
        PebblesAction::GiveUp => false,
        PebblesAction::Restart { .. } => true,
    }
}

impl GameState {
    /// What holds of every game that was set up and played by the rules: the
    /// limits are positive, the pile never holds more than at the start, and
    /// an empty pile has a winner.
    pub open spec fn wf(self) -> bool {
        &&& self.pebbles_count > 0
        &&& self.max_pebbles_per_turn > 0
        &&& self.pebbles_remaining <= self.pebbles_count
        &&& (self.pebbles_remaining == 0 ==> self.winner is Some)
    }
}

/// Tests the numbers that a game is to be set up with.
pub fn check_config(pebbles_count: u32, max_pebbles_per_turn: u32) -> (checked: Result<
    (),
    GameError,
>)
    ensures
        checked == match config_error(pebbles_count, max_pebbles_per_turn) {
            Some(e) => Err::<(), GameError>(e),
            None => Ok(()),
        },
{
    if pebbles_count == 0 {
        Err(GameError::ZeroPebblesCount)
    } else if max_pebbles_per_turn == 0 {
        Err(GameError::ZeroMaxPebblesPerTurn)
    } else {
        Ok(())
    }
}

/// The side that the coin picks to move first.
pub fn first_player(coin: u32) -> (player: Player)
    ensures
        player == first_player_of(coin),
{
    if coin % 2 == 0 {
        Player::User
    } else {
        Player::Program
    }
}

/// Whether setting up a game on this coin consumes a second random word.
pub fn opening_needs_word(init: &PebblesInit, coin: u32) -> (needed: bool)
    ensures
        needed == opening_consumes_word(*init, coin),
{
    match check_config(init.pebbles_count, init.max_pebbles_per_turn) {
        Err(_) => false,
        Ok(()) => match first_player(coin) {
            Player::User => false,
            Player::Program => move_needs_draw(
                init.difficulty,
                init.pebbles_count,
                init.max_pebbles_per_turn,
            ),
        },
    }
}

impl GameState {
    /// A game in which nobody has moved yet. The numbers are taken as they
    /// are: `check_config` tests them.
    pub fn fresh(
        difficulty: DifficultyLevel,
        pebbles_count: u32,
        max_pebbles_per_turn: u32,
        first_player: Player,
    ) -> (game: GameState)
        ensures
            game == fresh_game(difficulty, pebbles_count, max_pebbles_per_turn, first_player),
            config_error(pebbles_count, max_pebbles_per_turn) is None ==> game.wf(),
    {
        GameState {
            pebbles_count,
            max_pebbles_per_turn,
            pebbles_remaining: pebbles_count,
            difficulty,
            first_player,
            winner: None,
        }
    }

    /// The program removes `taken` pebbles.
    pub(crate) fn program_takes(&mut self, taken: u32)
        requires
            taken <= old(self).pebbles_remaining,
        ensures
            *final(self) == after_program_move(*old(self), taken as nat),
    {
        self.pebbles_remaining = self.pebbles_remaining - taken;
        if self.pebbles_remaining == 0 {
            self.winner = Some(Player::Program);
        }
    }

    /// Sets up a game with the program's opening move, if the coin gives it
    /// one, already made. The move is the one that `rnd` stands for where the
    /// program has to draw.
    ///
    /// It fails where, and only where, one of the two numbers is 0.
    pub fn start(init: &PebblesInit, coin: u32, rnd: u32) -> (started: Result<GameState, GameError>)
        ensures
            started == match config_error(init.pebbles_count, init.max_pebbles_per_turn) {
                Some(e) => Err::<GameState, GameError>(e),
                None => Ok(started_game(*init, coin, rnd)),
            },
            started matches Ok(game) ==> game.wf(),
    {
        match check_config(init.pebbles_count, init.max_pebbles_per_turn) {
            Err(e) => Err(e),
            Ok(()) => {
                let first: Player = first_player(coin);
                let mut game = GameState::fresh(
                    init.difficulty,
                    init.pebbles_count,
                    init.max_pebbles_per_turn,
                    first,
                );
                match first {
                    Player::User => {},
                    Player::Program => {
                        let taken: u32 = choose_move(
                            init.difficulty,
                            init.pebbles_count,
                            init.max_pebbles_per_turn,
                            rnd,
                        );
                        game.program_takes(taken);
                    },
                }
                Ok(game)
            },
        }
    }

    /// Tests whether the user may remove `taken` pebbles now.
    pub fn check_turn(&self, taken: u32) -> (checked: Result<(), GameError>)
        ensures
            checked == match turn_error(*self, taken) {
                Some(e) => Err::<(), GameError>(e),
                None => Ok(()),
            },
    {
        if self.winner.is_some() {
            Err(GameError::GameOver)
        } else if taken == 0 || taken > self.max_pebbles_per_turn || taken
            > self.pebbles_remaining {
            Err(GameError::InvalidTurn)
        } else {
            Ok(())
        }
    }

    /// Whether carrying out `action` now consumes a random word.
    pub fn needs_word(&self, action: PebblesAction) -> (needed: bool)
        ensures
            needed == consumes_word(*self, action),
    {
        match action {
            PebblesAction::Turn(taken) => match self.check_turn(taken) {
                Err(_) => false,
                Ok(()) => taken < self.pebbles_remaining && move_needs_draw(
                    self.difficulty,
                    self.pebbles_remaining - taken,
                    self.max_pebbles_per_turn,
                ),
            },
            PebblesAction::GiveUp => false,
            PebblesAction::Restart { pebbles_count, max_pebbles_per_turn, .. } => check_config(
                pebbles_count,
                max_pebbles_per_turn,
            ).is_ok(),
        }
    }

    /// The user removes `taken` pebbles and, unless that wins the game, the
    /// program removes `reply`.
    pub(crate) fn play(&mut self, taken: u32, reply: u32) -> (event: PebblesEvent)
        requires
            turn_error(*old(self), taken) is None,
            taken < old(self).pebbles_remaining ==> reply <= old(self).pebbles_remaining - taken,
        ensures
            *final(self) == after_turn(*old(self), taken, reply as nat),
            event == turn_event(*old(self), taken, reply as nat),
    {
        self.pebbles_remaining = self.pebbles_remaining - taken;
        if self.pebbles_remaining == 0 {
            self.winner = Some(Player::User);
            PebblesEvent::Won(Player::User)
        } else {
            self.program_takes(reply);
            if self.pebbles_remaining == 0 {
                PebblesEvent::Won(Player::Program)
            } else {
                PebblesEvent::CounterTurn(reply)
            }
        }
    }

    /// Carries out one request, where `rnd` is the word that the game would
    /// draw: the program's draw in a turn, the coin in a restart.
    ///
    /// A turn is turned down in a game that has a winner, and where it removes
    /// nothing, more than a turn allows or more than the pile holds; a restart
    /// where one of its numbers is 0. A request that is turned down changes
    /// nothing.
    pub fn apply(&mut self, action: PebblesAction, rnd: u32) -> (reply: Result<
        Option<PebblesEvent>,
        GameError,
    >)
        ensures
            *final(self) == next_state(*old(self), action, rnd),
            reply == reply_to(*old(self), action, rnd),
            old(self).wf() ==> final(self).wf(),
    {
        match action {
            PebblesAction::Turn(taken) => {
                match self.check_turn(taken) {
                    Err(e) => Err(e),
                    Ok(()) => {
                        let left: u32 = self.pebbles_remaining - taken;
                        let answer: u32 = if left == 0 {
                            0
                        } else {
                            choose_move(self.difficulty, left, self.max_pebbles_per_turn, rnd)
                        };
                        Ok(Some(self.play(taken, answer)))
                    },
                }
            },
            PebblesAction::GiveUp => {
                self.winner = Some(Player::Program);
                Ok(Some(PebblesEvent::Won(Player::Program)))
            },
            PebblesAction::Restart { difficulty, pebbles_count, max_pebbles_per_turn } => {
                match check_config(pebbles_count, max_pebbles_per_turn) {
                    Err(e) => Err(e),
                    Ok(()) => {
                        *self = GameState::fresh(
                            difficulty,
                            pebbles_count,
                            max_pebbles_per_turn,
                            first_player(rnd),
                        );
                        Ok(None)
                    },
                }
            },
        }
    }
}

} // verus!
