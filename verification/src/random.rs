//! Where the game gets its random words from.
//!
//! The game never asks for more than it needs: one word for each coin flip
//! and one for each move that the program draws. It asks through
//! [`RandomSource`], so that a caller decides where the words come from.
//! A program under the Gear runtime asks its host for a seed, and
//! [`word_of_seed`] reads the word out of the host's answer.

use vstd::prelude::*;

use crate::types::GameError;

verus! {

/// A supply of 32-bit words. Nothing is assumed of the words themselves.
///
/// A source may say which draws are possible in a given state. One that says
/// nothing leaves every draw possible, as a source of true chance must.
pub trait RandomSource: Sized {
    /// Whether a draw from the source in this state can give `word`, with
    /// `None` for no word at all, and leave the source as `after`.
    open spec fn may_give(&self, word: Option<u32>, after: Self) -> bool {
        true
    }

    /// Draws the next word, or `None` when the source has none to give.
    fn next_u32(&mut self) -> (word: Option<u32>)
        ensures
            old(self).may_give(word, *final(self)),
    ;
}

/// A source that gives the same word every time.
#[derive(Clone, Copy, Debug, PartialEq, Eq, Structural)]
pub struct FixedRandom {
    pub value: u32,
}

impl RandomSource for FixedRandom {
    open spec fn may_give(&self, word: Option<u32>, after: FixedRandom) -> bool {
        word == Some(self.value) && after == *self
    }

    fn next_u32(&mut self) -> (word: Option<u32>) {
        Some(self.value)
    }
}

/// What it is to have drawn `word` from a source where a word was `needed`:
/// the source could give it and is left as `after`, with
/// [`GameError::RandomUnavailable`] for a source that gave none. Where no word
/// was needed, none was drawn: the source is as before, and 0 stands in for
/// the word.
pub open spec fn drew<R: RandomSource>(
    before: R,
    needed: bool,
    word: Result<u32, GameError>,
    after: R,
) -> bool {
    if needed {
        match word {
            Ok(given) => before.may_give(Some(given), after),
            Err(e) => e == GameError::RandomUnavailable && before.may_give(None, after),
        }
    } else {
        word == Ok::<u32, GameError>(0) && after == before
    }
}

/// Draws a word from `rng` if one is needed, and leaves `rng` alone if none
/// is.
pub fn draw_if_needed<R: RandomSource>(needed: bool, rng: &mut R) -> (word: Result<u32, GameError>)
    ensures
        drew(*old(rng), needed, word, *final(rng)),
{
    if needed {
        match rng.next_u32() {
            Some(given) => Ok(given),
            None => Err(GameError::RandomUnavailable),
        }
    } else {
        Ok(0)
    }
}

/// `gstd::errors::CoreError`, the error of a host call. It is carried from
/// the call to the place that answers it and never looked into.
#[verifier::external_type_specification]
#[verifier::external_body]
pub struct ExCoreError(gstd::errors::CoreError);

/// The number that four bytes spell, least significant byte first.
pub open spec fn le_word(b0: u8, b1: u8, b2: u8, b3: u8) -> nat {
    (b0 + 256 * b1 + 65536 * b2 + 16777216 * b3) as nat
}

/// Reads four bytes as a 32-bit word, least significant byte first.
pub fn word_from_le_bytes(b0: u8, b1: u8, b2: u8, b3: u8) -> (word: u32)
    ensures
        word == le_word(b0, b1, b2, b3),
{
    let low: u32 = (b0 as u32) + 256 * (b1 as u32);
    let high: u32 = (b2 as u32) + 256 * (b3 as u32);
    low + 65536 * high
}

/// The word that an answer of the host stands for.
pub open spec fn seed_word(seed: Result<([u8; 32], u32), gstd::errors::CoreError>) -> Result<
    u32,
    GameError,
> {
    match seed {
        Ok((hash, _)) => Ok(le_word(hash[0], hash[1], hash[2], hash[3]) as u32),
        Err(_) => Err(GameError::RandomUnavailable),
    }
}

/// Reads the word out of what the host answered when asked for a seed: the
/// first four bytes of the seed, least significant first. The block number
/// is not used. Where the host gave an error instead of a seed, whatever the
/// error, there is no word.
pub fn word_of_seed(seed: Result<([u8; 32], u32), gstd::errors::CoreError>) -> (word: Result<
    u32,
    GameError,
>)
    ensures
        word == seed_word(seed),
{
    match seed {
        Ok((hash, _block)) => Ok(word_from_le_bytes(hash[0], hash[1], hash[2], hash[3])),
        Err(_) => Err(GameError::RandomUnavailable),
    }
}

} // verus!
