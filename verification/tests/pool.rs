use hangman::words::{filter_words, secret_at, select_word};

fn strings(words: &[&str]) -> Vec<String> {
    words.iter().map(|w| w.to_string()).collect()
}

#[test]
fn filter_keeps_exactly_the_qualifying_lengths_in_order() {
    let candidates = strings(&["apple", "of", "banana", "kiwi", "strawberry", "melon"]);
    let pool = filter_words(&candidates, 5, 6);
    assert_eq!(pool, strings(&["apple", "banana", "melon"]));
}

#[test]
fn filter_keeps_boundary_lengths() {
    let candidates = strings(&["12345", "1234", "123456", "1234567"]);
    let pool = filter_words(&candidates, 5, 6);
    assert_eq!(pool, strings(&["12345", "123456"]));
}

#[test]
fn filter_of_empty_input_is_empty() {
    let pool = filter_words(&vec![], 5, 24);
    assert!(pool.is_empty());
}

#[test]
fn filter_with_no_qualifying_word_is_empty() {
    // no candidate has exactly five characters: the pool comes back
    // empty and the program around the library must stop with a fatal
    // resource error before any round starts
    let candidates = strings(&["cat", "of", "elephants", "go"]);
    let pool = filter_words(&candidates, 5, 5);
    assert!(pool.is_empty());
}

#[test]
fn secret_at_lower_cases_the_chosen_word() {
    let pool = strings(&["Apple", "KIWI"]);
    assert_eq!(secret_at(&pool, 0), vec!['a', 'p', 'p', 'l', 'e']);
    assert_eq!(secret_at(&pool, 1), vec!['k', 'i', 'w', 'i']);
}

#[test]
fn select_word_from_singleton_pool_returns_it_lower_cased() {
    let pool = strings(&["HELLO"]);
    assert_eq!(select_word(&pool), vec!['h', 'e', 'l', 'l', 'o']);
}

#[test]
fn select_word_always_comes_from_the_pool() {
    let pool = strings(&["Apple", "Kiwi", "Melon"]);
    for _ in 0..32 {
        let secret: String = select_word(&pool).into_iter().collect();
        assert!(pool.iter().any(|w| w.to_lowercase() == secret));
    }
}
