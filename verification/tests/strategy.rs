use pebbles_game::random::{draw_if_needed, word_from_le_bytes, FixedRandom, RandomSource};
use pebbles_game::strategy::{
    choose_move, easy_move, find_best_move, forcing_move, move_needs_draw,
};
use pebbles_game::types::{DifficultyLevel, GameError};

/// A source that hands out the words of a list, in order, and counts them.
struct Script {
    words: Vec<u32>,
    given: usize,
}

impl Script {
    fn of(words: &[u32]) -> Script {
        Script { words: words.to_vec(), given: 0 }
    }
}

impl RandomSource for Script {
    fn next_u32(&mut self) -> Option<u32> {
        let word = self.words.get(self.given).copied();
        if word.is_some() {
            self.given += 1;
        }
        word
    }
}

#[test]
fn easy_move_is_the_remainder_plus_one() {
    assert_eq!(easy_move(10, 3, 42), 1);
    assert_eq!(easy_move(10, 3, 43), 2);
    assert_eq!(easy_move(10, 3, 44), 3);
    assert_eq!(easy_move(10, 3, 0), 1);
    assert_eq!(easy_move(10, 3, u32::MAX), 1);
    assert_eq!(easy_move(10, 1, 12345), 1);
}

#[test]
fn easy_move_never_exceeds_the_pile() {
    // The pile is smaller than the largest turn: the range shrinks to it.
    assert_eq!(easy_move(1, 5, 4), 1);
    assert_eq!(easy_move(2, 5, 4), 1);
    assert_eq!(easy_move(2, 5, 3), 2);
    for rnd in 0..200u32 {
        for remaining in 1..8u32 {
            for max in 1..8u32 {
                let taken = easy_move(remaining, max, rnd);
                assert!(1 <= taken && taken <= max && taken <= remaining);
                assert_eq!(taken, rnd % remaining.min(max) + 1);
            }
        }
    }
}

#[test]
fn forcing_move_is_pile_less_one_modulo_max_plus_one() {
    assert_eq!(forcing_move(8, 3), 3);
    assert_eq!(forcing_move(2, 3), 1);
    assert_eq!(forcing_move(10, 3), 1);
    assert_eq!(forcing_move(5, 3), 0);
    assert_eq!(forcing_move(1, 3), 0);
    assert_eq!(forcing_move(9, 3), 0);
    assert_eq!(forcing_move(3, 3), 2);
    assert_eq!(forcing_move(7, 10), 6);
}

#[test]
fn forcing_move_at_the_largest_numbers() {
    // The modulus is 2^32 here and does not fit the pile's type.
    assert_eq!(forcing_move(u32::MAX, u32::MAX), u32::MAX - 1);
    assert_eq!(forcing_move(1, u32::MAX), 0);
    assert_eq!(forcing_move(u32::MAX, 1), 0);
    assert_eq!(forcing_move(u32::MAX - 1, 1), 1);
}

#[test]
fn forcing_move_leaves_one_over_a_multiple() {
    for max in 1..10u32 {
        for pile in 1..100u32 {
            let taken = forcing_move(pile, max);
            assert!(taken < pile && taken <= max);
            if taken != 0 {
                assert_eq!((pile - taken) % (max + 1), 1);
            } else {
                assert_eq!(pile % (max + 1), 1 % (max + 1));
            }
        }
    }
}

#[test]
fn choose_move_follows_the_level() {
    assert_eq!(choose_move(DifficultyLevel::Easy, 8, 3, 42), 1);
    assert_eq!(choose_move(DifficultyLevel::Hard, 8, 3, 42), 3);
    // No closed-form move at 5: the hard level draws as the easy one does.
    assert_eq!(choose_move(DifficultyLevel::Hard, 5, 3, 43), 2);
    assert_eq!(choose_move(DifficultyLevel::Easy, 5, 3, 43), 2);
    assert_eq!(choose_move(DifficultyLevel::Hard, 1, 5, 4), 1);
}

#[test]
fn find_best_move_draws_only_without_a_forcing_move() {
    let mut script = Script::of(&[43, 44]);
    assert_eq!(find_best_move(8, 3, &mut script), Ok(3));
    assert_eq!(script.given, 0);
    assert_eq!(find_best_move(5, 3, &mut script), Ok(2));
    assert_eq!(script.given, 1);
    assert_eq!(find_best_move(9, 3, &mut script), Ok(3));
    assert_eq!(script.given, 2);
}

#[test]
fn find_best_move_fails_when_no_word_comes() {
    let mut empty = Script::of(&[]);
    assert_eq!(find_best_move(5, 3, &mut empty), Err(GameError::RandomUnavailable));
    // A forcing move needs no word.
    assert_eq!(find_best_move(8, 3, &mut empty), Ok(3));
}

#[test]
fn find_best_move_plays_the_drawn_word_as_the_easy_level_does() {
    for rnd in [0u32, 1, 2, 3, 42, u32::MAX] {
        let mut fixed = FixedRandom { value: rnd };
        assert_eq!(find_best_move(5, 3, &mut fixed), Ok(easy_move(5, 3, rnd)));
        assert_eq!(find_best_move(5, 3, &mut fixed), Ok(choose_move(DifficultyLevel::Hard, 5, 3, rnd)));
        assert_eq!(find_best_move(8, 3, &mut fixed), Ok(3));
    }
}

#[test]
fn move_needs_draw_tells_when_a_word_is_used() {
    assert!(move_needs_draw(DifficultyLevel::Easy, 8, 3));
    assert!(!move_needs_draw(DifficultyLevel::Hard, 8, 3));
    assert!(move_needs_draw(DifficultyLevel::Hard, 5, 3));
    assert!(move_needs_draw(DifficultyLevel::Hard, 1, 3));
    assert!(!move_needs_draw(DifficultyLevel::Hard, 3, 3));
}

#[test]
fn draw_if_needed_draws_only_when_needed() {
    let mut script = Script::of(&[7, 8]);
    assert_eq!(draw_if_needed(false, &mut script), Ok(0));
    assert_eq!(script.given, 0);
    assert_eq!(draw_if_needed(true, &mut script), Ok(7));
    assert_eq!(script.given, 1);
    assert_eq!(draw_if_needed(true, &mut script), Ok(8));
    assert_eq!(script.given, 2);
    assert_eq!(draw_if_needed(true, &mut script), Err(GameError::RandomUnavailable));
    assert_eq!(draw_if_needed(false, &mut script), Ok(0));
    let mut fixed = FixedRandom { value: 42 };
    assert_eq!(draw_if_needed(true, &mut fixed), Ok(42));
    assert_eq!(draw_if_needed(false, &mut fixed), Ok(0));
}

#[test]
fn fixed_random_gives_its_word_every_time() {
    let mut fixed = FixedRandom { value: 42 };
    assert_eq!(fixed.next_u32(), Some(42));
    assert_eq!(fixed.next_u32(), Some(42));
    assert_eq!(fixed, FixedRandom { value: 42 });
}

#[test]
fn word_from_le_bytes_puts_the_first_byte_lowest() {
    assert_eq!(word_from_le_bytes(0x78, 0x56, 0x34, 0x12), 0x1234_5678);
    assert_eq!(word_from_le_bytes(1, 0, 0, 0), 1);
    assert_eq!(word_from_le_bytes(0, 1, 0, 0), 256);
    assert_eq!(word_from_le_bytes(0, 0, 1, 0), 65_536);
    assert_eq!(word_from_le_bytes(0, 0, 0, 1), 16_777_216);
    assert_eq!(word_from_le_bytes(255, 255, 255, 255), u32::MAX);
    assert_eq!(word_from_le_bytes(42, 0, 0, 0), u32::from_le_bytes([42, 0, 0, 0]));
    assert_eq!(word_from_le_bytes(9, 8, 7, 6), u32::from_le_bytes([9, 8, 7, 6]));
}
