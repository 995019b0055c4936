use hangman::session::check_if_continue;

#[test]
fn affirmative_tokens_continue_the_session() {
    for token in ["y", "Y", "yes", "Yes", "yeah", "Yeah"] {
        assert_eq!(check_if_continue(token), Some(true));
    }
}

#[test]
fn anything_else_stops_the_session() {
    for token in ["n", "N", "no", "", "YES", "yep", "Nah", "y ", " y"] {
        assert_eq!(check_if_continue(token), None);
    }
}
