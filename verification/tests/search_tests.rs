use duetime::keys::{Key, KeyCode};
use duetime::search::{self, SearchInputResult, SearchNavigationResult, SearchState};

fn state(query: &str) -> SearchState {
    SearchState { query: query.to_string(), matches: Vec::new(), current_match: 0 }
}

#[test]
fn search_lists_matching_rows() {
    let items = vec!["Buy milk".to_string(), "call mom".to_string(), "MILK the cow".to_string()];
    let mut s = state("  Milk ");
    search::search_items(&mut s, &items, |item: &String, q: &str| item.to_lowercase().contains(q));
    assert_eq!(s.matches, vec![0, 2]);
    assert_eq!(s.current_match, 0);
    assert_eq!(s.query, "  Milk ");
}

#[test]
fn empty_query_lists_nothing() {
    let items = vec!["a".to_string()];
    let mut s = state("   ");
    s.matches = vec![0];
    s.current_match = 3;
    search::search_items(&mut s, &items, |item: &String, q: &str| item.contains(q));
    assert!(s.matches.is_empty());
    assert_eq!(s.current_match, 0);
}

#[test]
fn next_and_previous_wrap() {
    let mut s = SearchState { query: "x".to_string(), matches: vec![4, 7, 9], current_match: 2 };
    search::next_match(&mut s);
    assert_eq!(s.current_match, 0);
    search::previous_match(&mut s);
    assert_eq!(s.current_match, 2);
    search::previous_match(&mut s);
    assert_eq!(s.current_match, 1);
    let mut empty = SearchState::default();
    search::next_match(&mut empty);
    assert_eq!(empty.current_match, 0);
}

#[test]
fn typing_a_query() {
    let mut s = state("mi");
    assert_eq!(search::handle_search_input(&mut s, Key::plain(KeyCode::Char('l'))), SearchInputResult::Continue);
    assert_eq!(s.query, "mil");
    assert_eq!(search::handle_search_input(&mut s, Key::plain(KeyCode::Backspace)), SearchInputResult::Continue);
    assert_eq!(s.query, "mi");
    assert_eq!(search::handle_search_input(&mut s, Key::plain(KeyCode::Enter)), SearchInputResult::Continue);
    s.matches = vec![1];
    assert_eq!(search::handle_search_input(&mut s, Key::plain(KeyCode::Enter)), SearchInputResult::Navigate);
    assert_eq!(search::handle_search_input(&mut s, Key::plain(KeyCode::Esc)), SearchInputResult::Cancel);
    assert_eq!(s.query, "mi");
    let mut e = state("");
    search::handle_search_input(&mut e, Key::plain(KeyCode::Backspace));
    assert_eq!(e.query, "");
}

#[test]
fn stepping_through_matches() {
    let mut s = SearchState { query: "x".to_string(), matches: vec![2, 5], current_match: 0 };
    assert_eq!(search::handle_search_navigation(&mut s, Key::plain(KeyCode::Char('n'))), SearchNavigationResult::Continue);
    assert_eq!(s.current_match, 1);
    assert_eq!(search::handle_search_navigation(&mut s, Key::plain(KeyCode::Char('N'))), SearchNavigationResult::Continue);
    assert_eq!(s.current_match, 0);
    assert_eq!(search::handle_search_navigation(&mut s, Key::plain(KeyCode::Char('z'))), SearchNavigationResult::Continue);
    assert_eq!(s.current_match, 0);
    assert_eq!(search::handle_search_navigation(&mut s, Key::plain(KeyCode::Char('q'))), SearchNavigationResult::Cancel);
    assert_eq!(s.query, "");
    assert!(s.matches.is_empty());
}

#[test]
fn next_then_previous_returns() {
    for start in 0..4usize {
        let mut s = SearchState { query: "x".to_string(), matches: vec![0, 1, 2, 3], current_match: start };
        search::next_match(&mut s);
        search::previous_match(&mut s);
        assert_eq!(s.current_match, start);
    }
}
