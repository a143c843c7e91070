//! The values that travel between a caller and the game.

use vstd::prelude::*;

verus! {

/// How the program picks its moves.
#[derive(Clone, Copy, Debug, PartialEq, Eq, Structural)]
pub enum DifficultyLevel {
    /// Every move is a random draw.
    Easy,
    /// The program plays its closed-form move and draws only when it has none.
    Hard,
}

/// One of the two sides of a game.
#[derive(Clone, Copy, Debug, PartialEq, Eq, Structural)]
pub enum Player {
    User,
    Program,
}

/// The request that creates a game.
#[derive(Clone, Copy, Debug, PartialEq, Eq, Structural)]
pub struct PebblesInit {
    pub difficulty: DifficultyLevel,
    pub pebbles_count: u32,
    pub max_pebbles_per_turn: u32,
}

/// A request made of a game.
#[derive(Clone, Copy, Debug, PartialEq, Eq, Structural)]
pub enum PebblesAction {
    /// The user removes this many pebbles.
    Turn(u32),
    /// The user concedes.
    GiveUp,
    /// The game is set up anew.
    Restart { difficulty: DifficultyLevel, pebbles_count: u32, max_pebbles_per_turn: u32 },
}

/// What the game answers to a turn or a concession.
#[derive(Clone, Copy, Debug, PartialEq, Eq, Structural)]
pub enum PebblesEvent {
    /// The program removed this many pebbles and the game goes on.
    CounterTurn(u32),
    /// The game is over and this side has won.
    Won(Player),
}

/// The whole of one game.
#[derive(Clone, Copy, Debug, PartialEq, Eq, Structural)]
pub struct GameState {
    pub pebbles_count: u32,
    pub max_pebbles_per_turn: u32,
    pub pebbles_remaining: u32,
    pub difficulty: DifficultyLevel,
    pub first_player: Player,
    pub winner: Option<Player>,
}

/// Why a request was turned down. A request that is turned down changes
/// nothing.
#[derive(Clone, Copy, Debug, PartialEq, Eq, Structural)]
pub enum GameError {
    /// A game was asked for with no pebbles in its pile.
    ZeroPebblesCount,
    /// A game was asked for in which no pebble may be removed per turn.
    ZeroMaxPebblesPerTurn,
    /// The user tried to remove no pebble, more than a turn allows, or more
    /// than the pile holds.
    InvalidTurn,
    /// The user tried to move in a game that already has a winner.
    GameOver,
    /// A request reached an engine that holds no game yet.
    Uninitialized,
    /// The random source had no word to give when the program needed one.
    RandomUnavailable,
}

impl GameError {
    /// The words that say what went wrong.
    pub open spec fn text(self) -> Seq<char> {
        match self {
            GameError::ZeroPebblesCount => "Pebbles count must be greater than 0"@,
            GameError::ZeroMaxPebblesPerTurn => "Max pebbles per turn must be greater than 0"@,
            GameError::InvalidTurn => "Invalid number of pebbles"@,
            GameError::GameOver => "The game is over"@,
            GameError::Uninitialized => "The game is not initialized"@,
            GameError::RandomUnavailable => "get_random_u32(): random call failed"@,
        }
    }

    /// The words that say what went wrong.
    pub fn describe(&self) -> (words: &'static str)
        ensures
            words@ == self.text(),
    {
        match self {
            GameError::ZeroPebblesCount => "Pebbles count must be greater than 0",
            GameError::ZeroMaxPebblesPerTurn => "Max pebbles per turn must be greater than 0",
            GameError::InvalidTurn => "Invalid number of pebbles",
            GameError::GameOver => "The game is over",
            GameError::Uninitialized => "The game is not initialized",
            GameError::RandomUnavailable => "get_random_u32(): random call failed",
        }
    }
}

} // verus!
