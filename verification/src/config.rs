//! Validating the two configuration numbers and deciding what the
//! command-line arguments mean. Printing messages and exiting belong to
//! the program around the library; each rejection below names its own
//! variant so that the program can pick the matching exit path.

use vstd::prelude::*;

use crate::{MAX_NUMBER_OF_ATTEMPTS, MAX_WORD_LENGTH, MIN_NUMBER_OF_ATTEMPTS, MIN_WORD_LENGTH};

verus! {

/// A word-length bound the game accepts.
pub open spec fn word_length_ok(v: int) -> bool {
    MIN_WORD_LENGTH <= v <= MAX_WORD_LENGTH
}

/// An attempt budget the game accepts.
pub open spec fn attempts_ok(v: int) -> bool {
    MIN_NUMBER_OF_ATTEMPTS <= v <= MAX_NUMBER_OF_ATTEMPTS
}

/// Accepts a requested maximum word length into `len`, or rejects it
/// leaving `len` untouched.
pub fn check_and_set_max_word_length(val: i32, len: &mut i32) -> (ok: bool)
    ensures
        ok <==> word_length_ok(val as int),
        ok ==> *final(len) == val,
        !ok ==> *final(len) == *old(len),
{
    if val < MIN_WORD_LENGTH || val > MAX_WORD_LENGTH {
        return false;
    }
    *len = val;
    true
}

/// Accepts a requested attempt budget into `attempts`, or rejects it
/// leaving `attempts` untouched.
pub fn check_and_set_attempts(val: i32, attempts: &mut i32) -> (ok: bool)
    ensures
        ok <==> attempts_ok(val as int),
        ok ==> *final(attempts) == val,
        !ok ==> *final(attempts) == *old(attempts),
{
    if val < MIN_NUMBER_OF_ATTEMPTS || val > MAX_NUMBER_OF_ATTEMPTS {
        return false;
    }
    *attempts = val;
    true
}

/// What a list of numeric command-line arguments means for the game.
#[derive(Clone, Copy, Debug, PartialEq, Eq, Structural)]
pub enum ConfigDecision {
    /// Wrong number of arguments: show usage.
    Usage,
    /// The word-length bound lies outside `[5, 24]`.
    BadWordLength,
    /// The attempt budget lies outside `[10, 100]`.
    BadAttempts,
    /// Both bounds accepted; a missing second argument falls back to the
    /// smallest attempt budget.
    Accepted { max_word_length: i32, attempts: i32 },
}

/// The decision the argument list yields: zero or more than two
/// arguments ask for usage; a bad word length is reported before a bad
/// attempt budget; one argument leaves the budget at its minimum.
pub open spec fn config_spec(args: Seq<i32>) -> ConfigDecision {
    if args.len() == 0 || args.len() > 2 {
        ConfigDecision::Usage
    } else if !word_length_ok(args[0] as int) {
        ConfigDecision::BadWordLength
    } else if args.len() == 2 && !attempts_ok(args[1] as int) {
        ConfigDecision::BadAttempts
    } else {
        ConfigDecision::Accepted {
            max_word_length: args[0],
            attempts: if args.len() == 2 {
                args[1]
            } else {
                MIN_NUMBER_OF_ATTEMPTS
            },
        }
    }
}

/// Validates the numeric command-line arguments and hands back either
/// the accepted configuration or the rejection to report.
pub fn evaluate_config(args: &Vec<i32>) -> (d: ConfigDecision)
    ensures
        d == config_spec(args@),
{
    if args.len() == 0 || args.len() > 2 {
        return ConfigDecision::Usage;
    }
    let mut max_word_length: i32 = MAX_WORD_LENGTH;
    let mut attempts: i32 = MIN_NUMBER_OF_ATTEMPTS;
    if !check_and_set_max_word_length(args[0], &mut max_word_length) {
        return ConfigDecision::BadWordLength;
    }
    if args.len() == 2 {
        if !check_and_set_attempts(args[1], &mut attempts) {
            return ConfigDecision::BadAttempts;
        }
    }
    ConfigDecision::Accepted { max_word_length, attempts }
}

} // verus!
