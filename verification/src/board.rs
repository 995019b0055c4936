//! The reveal buffer: a masked copy of the secret word, revealed in place
//! as correct guesses arrive.

use vstd::prelude::*;

use crate::PLACEHOLDER;

verus! {

/// A reveal buffer is well formed for a secret when it has the secret's
/// length and every position is either still masked or already carries
/// the secret's character.
pub open spec fn board_wf(secret: Seq<char>, word: Seq<char>) -> bool {
    &&& word.len() == secret.len()
    &&& forall|i: int| 0 <= i < word.len() ==> word[i] == PLACEHOLDER || word[i] == secret[i]
}

/// The buffer after one guess: every position where the secret holds the
/// guessed character is revealed, every other position is left as it was.
pub open spec fn apply_guess_spec(secret: Seq<char>, word: Seq<char>, guess: char) -> Seq<char> {
    Seq::new(word.len(), |i: int| if secret[i] == guess {
        guess
    } else {
        word[i]
    })
}

/// The buffer after a whole sequence of guesses, applied first to last.
pub open spec fn apply_guesses_spec(secret: Seq<char>, word: Seq<char>, guesses: Seq<char>) -> Seq<
    char,
>
    decreases guesses.len(),
{
    if guesses.len() == 0 {
        word
    } else {
        apply_guesses_spec(
            secret,
            apply_guess_spec(secret, word, guesses[0]),
            guesses.drop_first(),
        )
    }
}

/// Builds the initial reveal buffer: `len` copies of the placeholder.
pub fn init_word(len: usize) -> (word: Vec<char>)
    ensures
        word@.len() == len,
        forall|i: int| 0 <= i < word@.len() ==> word@[i] == PLACEHOLDER,
{
    let mut word: Vec<char> = Vec::new();
    let mut k: usize = 0;
    while k < len
        invariant
            k <= len,
            word@.len() == k,
            forall|i: int| 0 <= i < word@.len() ==> word@[i] == PLACEHOLDER,
        decreases len - k,
    {
        word.push('_');
        k += 1;
    }
    word
}

/// Reveals in `word` every occurrence of `guess` inside `random_word`
/// and counts the guess as one attempt, hit or miss.
pub fn update_word(random_word: &Vec<char>, word: &mut Vec<char>, attempts: &mut i32, guess: char)
    requires
        old(word)@.len() == random_word@.len(),
        *old(attempts) < i32::MAX,
    ensures
        final(word)@ == apply_guess_spec(random_word@, old(word)@, guess),
        *final(attempts) == *old(attempts) + 1,
{
    let ghost word0 = word@;
    let mut idx: usize = 0;
    while idx < random_word.len()
        invariant
            idx <= random_word@.len(),
            word@.len() == word0.len(),
            word0.len() == random_word@.len(),
            forall|i: int| 0 <= i < idx ==> word@[i] == apply_guess_spec(
                random_word@,
                word0,
                guess,
            )[i],
            forall|i: int| idx <= i < word@.len() ==> word@[i] == word0[i],
        decreases random_word@.len() - idx,
    {
        if random_word[idx] == guess {
            word[idx] = guess;
        }
        idx += 1;
    }
    proof {
        assert(word@ =~= apply_guess_spec(random_word@, word0, guess));
    }
    *attempts += 1;
}

/// True exactly when the reveal buffer equals the secret character for
/// character.
pub fn check_game_solved(random_word: &Vec<char>, word: &Vec<char>) -> (solved: bool)
    ensures
        solved <==> random_word@ == word@,
{
    if random_word.len() != word.len() {
        return false;
    }
    let mut idx: usize = 0;
    while idx < random_word.len()
        invariant
            idx <= random_word@.len(),
            random_word@.len() == word@.len(),
            forall|i: int| 0 <= i < idx ==> random_word@[i] == word@[i],
        decreases random_word@.len() - idx,
    {
        if random_word[idx] != word[idx] {
            return false;
        }
        idx += 1;
    }
    proof {
        assert(random_word@ =~= word@);
    }
    true
}

/// One guess never disturbs an already revealed position, keeps the
/// buffer well formed, and every position it leaves revealed carries the
/// secret's character.
pub proof fn lemma_apply_guess_preserves_reveals(secret: Seq<char>, word: Seq<char>, guess: char)
    requires
        board_wf(secret, word),
    ensures
        board_wf(secret, apply_guess_spec(secret, word, guess)),
        forall|i: int|
            0 <= i < word.len() && word[i] != PLACEHOLDER ==> apply_guess_spec(
                secret,
                word,
                guess,
            )[i] == word[i],
        forall|i: int|
            0 <= i < word.len() && apply_guess_spec(secret, word, guess)[i] != PLACEHOLDER
                ==> apply_guess_spec(secret, word, guess)[i] == secret[i],
{
}

/// After a run of guesses, a position is revealed exactly when its secret
/// character was guessed at some point; all other positions still hold
/// what they held before.
pub proof fn lemma_apply_guesses_pointwise(secret: Seq<char>, word: Seq<char>, guesses: Seq<char>)
    requires
        word.len() == secret.len(),
    ensures
        apply_guesses_spec(secret, word, guesses).len() == word.len(),
        forall|i: int|
            0 <= i < word.len() ==> apply_guesses_spec(secret, word, guesses)[i] == (
            if guesses.contains(secret[i]) {
                secret[i]
            } else {
                word[i]
            }),
    decreases guesses.len(),
{
    if guesses.len() > 0 {
        let g0 = guesses[0];
        let word1 = apply_guess_spec(secret, word, g0);
        let rest = guesses.drop_first();
        lemma_apply_guesses_pointwise(secret, word1, rest);
        assert forall|i: int| 0 <= i < word.len() implies apply_guesses_spec(
            secret,
            word,
            guesses,
        )[i] == (if guesses.contains(secret[i]) {
            secret[i]
        } else {
            word[i]
        }) by {
            if guesses.contains(secret[i]) {
                let j = choose|j: int| 0 <= j < guesses.len() && guesses[j] == secret[i];
                if j == 0 {
                    assert(word1[i] == secret[i]);
                } else {
                    assert(rest[j - 1] == secret[i]);
                    assert(rest.contains(secret[i]));
                }
            } else {
                assert(secret[i] != g0);
                assert(forall|j: int| 0 <= j < rest.len() ==> rest[j] == guesses[j + 1]);
                assert(!rest.contains(secret[i]));
            }
        }
    }
}

/// Guessing every character of the secret, in any order and however
/// often, always solves the round.
pub proof fn lemma_all_chars_guessed_solves(secret: Seq<char>, word: Seq<char>, guesses: Seq<char>)
    requires
        word.len() == secret.len(),
        forall|i: int| 0 <= i < secret.len() ==> guesses.contains(secret[i]),
    ensures
        apply_guesses_spec(secret, word, guesses) == secret,
{
    lemma_apply_guesses_pointwise(secret, word, guesses);
    assert(apply_guesses_spec(secret, word, guesses) =~= secret);
}

} // verus!
