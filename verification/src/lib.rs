//! Core of a terminal word-guessing game: word filtering and selection,
//! the masked reveal buffer, and the round state machine. Console I/O,
//! argument reading and dictionary loading live outside this crate.

use vstd::prelude::*;

pub mod board;
pub mod config;
pub mod round;
pub mod session;
pub mod words;

verus! {

/// Shortest word length admitted into the playable pool.
pub const MIN_WORD_LENGTH: i32 = 5;

/// Largest word length the configuration may ask for.
pub const MAX_WORD_LENGTH: i32 = 24;

/// Smallest attempt budget the configuration may ask for.
pub const MIN_NUMBER_OF_ATTEMPTS: i32 = 10;

/// Largest attempt budget the configuration may ask for.
pub const MAX_NUMBER_OF_ATTEMPTS: i32 = 100;

/// The masking character shown for an unrevealed position.
pub const PLACEHOLDER: char = '_';

} // verus!
