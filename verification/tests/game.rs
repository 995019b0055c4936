use hangman::board::{check_game_solved, init_word, update_word};
use hangman::round::{GameRound, RoundStatus};

fn chars(s: &str) -> Vec<char> {
    s.chars().collect()
}

#[test]
fn init_word_is_all_placeholders() {
    let word = init_word(5);
    assert_eq!(word, vec!['_', '_', '_', '_', '_']);
}

#[test]
fn init_word_empty() {
    let word = init_word(0);
    assert!(word.is_empty());
}

#[test]
fn update_word_reveals_every_match() {
    let secret = chars("apple");
    let mut word = init_word(5);
    let mut attempts = 0i32;
    update_word(&secret, &mut word, &mut attempts, 'p');
    assert_eq!(word, chars("_pp__"));
    assert_eq!(attempts, 1);
}

#[test]
fn update_word_miss_still_counts_attempt() {
    let secret = chars("apple");
    let mut word = init_word(5);
    let mut attempts = 3i32;
    update_word(&secret, &mut word, &mut attempts, 'z');
    assert_eq!(word, chars("_____"));
    assert_eq!(attempts, 4);
}

#[test]
fn update_word_keeps_previously_revealed_positions() {
    let secret = chars("apple");
    let mut word = init_word(5);
    let mut attempts = 0i32;
    update_word(&secret, &mut word, &mut attempts, 'p');
    update_word(&secret, &mut word, &mut attempts, 'a');
    assert_eq!(word, chars("app__"));
    update_word(&secret, &mut word, &mut attempts, 'z');
    assert_eq!(word, chars("app__"));
    update_word(&secret, &mut word, &mut attempts, 'p');
    assert_eq!(word, chars("app__"));
    assert_eq!(attempts, 4);
}

#[test]
fn check_game_solved_iff_equal() {
    assert!(check_game_solved(&chars("apple"), &chars("apple")));
    assert!(!check_game_solved(&chars("apple"), &chars("appl_")));
    assert!(!check_game_solved(&chars("apple"), &chars("appl")));
    assert!(check_game_solved(&chars(""), &chars("")));
}

#[test]
fn guessing_every_distinct_char_solves_in_any_order() {
    let secret = chars("apple");
    let mut word = init_word(5);
    let mut attempts = 0i32;
    for g in ['e', 'l', 'p', 'a'] {
        update_word(&secret, &mut word, &mut attempts, g);
    }
    assert!(check_game_solved(&secret, &word));
}

#[test]
fn round_won_after_four_guesses() {
    let mut round = GameRound::new(chars("apple"), 10);
    assert_eq!(round.status, RoundStatus::InProgress);
    for g in ['a', 'p', 'l'] {
        round.step(g);
        assert_eq!(round.status, RoundStatus::InProgress);
        assert!(!round.is_over());
    }
    round.step('e');
    assert_eq!(round.status, RoundStatus::Won);
    assert!(round.is_over());
    assert_eq!(round.attempts, 4);
    assert_eq!(round.word, chars("apple"));
}

#[test]
fn round_lost_only_once_attempts_exceed_budget() {
    let mut round = GameRound::new(chars("kiwi"), 2);
    round.step('x');
    round.step('z');
    // two misses equal the budget, so the round is still open
    assert_eq!(round.attempts, 2);
    assert_eq!(round.status, RoundStatus::InProgress);
    round.step('q');
    assert_eq!(round.attempts, 3);
    assert_eq!(round.status, RoundStatus::Lost);
    assert!(round.is_over());
    assert_eq!(round.secret, chars("kiwi"));
}

#[test]
fn solving_on_the_attempt_that_exceeds_the_budget_wins() {
    let mut round = GameRound::new(chars("aaaaa"), 10);
    for _ in 0..10 {
        round.step('z');
    }
    assert_eq!(round.attempts, 10);
    assert_eq!(round.status, RoundStatus::InProgress);
    round.step('a');
    assert_eq!(round.attempts, 11);
    assert_eq!(round.status, RoundStatus::Won);
}

#[test]
fn attempts_count_one_per_guess_hit_or_miss() {
    let mut round = GameRound::new(chars("kiwi"), 100);
    let guesses = ['k', 'z', 'i', 'z', 'k'];
    for (n, g) in guesses.iter().enumerate() {
        round.step(*g);
        assert_eq!(round.attempts, n as i32 + 1);
    }
}
