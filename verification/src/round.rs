//! One play-through of the game: the secret word, its reveal buffer, the
//! attempt counter and the win/lose state machine that drives them.

use vstd::prelude::*;

use crate::board::{apply_guess_spec, board_wf, check_game_solved, init_word, update_word};
use crate::PLACEHOLDER;

verus! {

/// Where a round stands: still being played, solved, or out of attempts.
#[derive(Clone, Copy, Debug, PartialEq, Eq, Structural)]
pub enum RoundStatus {
    InProgress,
    Won,
    Lost,
}

/// The status a round reaches once a guess has been applied and counted:
/// a solved buffer wins outright, an exhausted budget only loses when the
/// word is still unsolved, anything else keeps the round going. The win
/// check coming first is the deliberate tie-break: solving the word on
/// the very attempt that exceeds the budget still wins.
pub open spec fn status_after(
    secret: Seq<char>,
    word: Seq<char>,
    attempts: int,
    max_attempts: int,
) -> RoundStatus {
    if word == secret {
        RoundStatus::Won
    } else if attempts > max_attempts {
        RoundStatus::Lost
    } else {
        RoundStatus::InProgress
    }
}

/// One round of the game. The secret and the attempt budget are fixed at
/// construction; the reveal buffer and the counter move with each guess.
pub struct GameRound {
    pub secret: Vec<char>,
    pub word: Vec<char>,
    pub attempts: i32,
    pub max_attempts: i32,
    pub status: RoundStatus,
}

impl GameRound {
    /// Everything the state machine maintains between guesses: the buffer
    /// is a well-formed mask of the secret, the counter never leaves
    /// `[0, max_attempts + 1]`, a running round still has budget left,
    /// and a won round really shows the whole secret.
    pub open spec fn wf(self) -> bool {
        &&& board_wf(self.secret@, self.word@)
        &&& 0 <= self.attempts
        &&& self.attempts <= self.max_attempts + 1
        &&& self.max_attempts <= i32::MAX - 1
        &&& (self.status is InProgress ==> self.attempts <= self.max_attempts)
        &&& (self.status is Won ==> self.word@ == self.secret@)
    }

    /// Starts a fresh round: fully masked buffer, zero attempts taken.
    pub fn new(secret: Vec<char>, max_attempts: i32) -> (round: GameRound)
        requires
            0 <= max_attempts < i32::MAX,
        ensures
            round.wf(),
            round.secret@ == secret@,
            round.max_attempts == max_attempts,
            round.attempts == 0,
            round.status is InProgress,
            round.word@.len() == secret@.len(),
            forall|i: int| 0 <= i < round.word@.len() ==> round.word@[i] == PLACEHOLDER,
    {
        let word = init_word(secret.len());
        GameRound { secret, word, attempts: 0, max_attempts, status: RoundStatus::InProgress }
    }

    /// One guess cycle: reveal the guessed character everywhere it occurs,
    /// count the attempt, then settle the status — win first, budget
    /// second, otherwise keep playing.
    pub fn step(&mut self, guess: char)
        requires
            old(self).wf(),
            old(self).status is InProgress,
        ensures
            final(self).wf(),
            final(self).secret@ == old(self).secret@,
            final(self).max_attempts == old(self).max_attempts,
            final(self).word@ == apply_guess_spec(old(self).secret@, old(self).word@, guess),
            final(self).attempts == old(self).attempts + 1,
            final(self).status == status_after(
                old(self).secret@,
                final(self).word@,
                final(self).attempts as int,
                old(self).max_attempts as int,
            ),
    {
        update_word(&self.secret, &mut self.word, &mut self.attempts, guess);
        if check_game_solved(&self.secret, &self.word) {
            self.status = RoundStatus::Won;
        } else if self.attempts > self.max_attempts {
            self.status = RoundStatus::Lost;
        } else {
            self.status = RoundStatus::InProgress;
        }
    }

    /// True once the round has reached a terminal state.
    pub fn is_over(&self) -> (over: bool)
        ensures
            over <==> !(self.status is InProgress),
    {
        match self.status {
            RoundStatus::InProgress => false,
            RoundStatus::Won => true,
            RoundStatus::Lost => true,
        }
    }
}

/// The tie-break stated on its own: whenever a guess leaves the buffer
/// equal to the secret, the round is won — no matter how many attempts
/// have been spent, exceeding the budget included.
pub proof fn lemma_win_on_last_attempt(
    secret: Seq<char>,
    word: Seq<char>,
    attempts: int,
    max_attempts: int,
)
    requires
        word == secret,
    ensures
        status_after(secret, word, attempts, max_attempts) is Won,
{
}

} // verus!
