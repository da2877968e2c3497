//! Searching a list: the query, the rows that match it and the match being
//! shown.
use vstd::prelude::*;
use crate::keys::{Key, KeyCode};
use crate::text::{lowercased, trimmed, to_lowercase, trim, pop_char, push_char};

verus! {

/// A search over a list.
#[derive(Debug)]
pub struct SearchState {
    pub query: String,
    pub matches: Vec<usize>,
    pub current_match: usize,
}

impl Default for SearchState {
    fn default() -> (s: Self)
        ensures
            s.query@ == Seq::<char>::empty(),
            s.matches@ == Seq::<usize>::empty(),
            s.current_match == 0,
    {
        SearchState { query: String::new(), matches: Vec::new(), current_match: 0 }
    }
}

/// What a key does while moving between matches.
#[derive(Clone, Copy, Debug, PartialEq, Eq, Structural)]
pub enum SearchNavigationResult {
    Continue,
    Cancel,
}

/// What a key does while typing a query.
#[derive(Clone, Copy, Debug, PartialEq, Eq, Structural)]
pub enum SearchInputResult {
    Continue,
    Navigate,
    Cancel,
}

/// The query as it is compared: trimmed and in lower case.
pub open spec fn normalized_query(q: Seq<char>) -> Seq<char> {
    lowercased(trimmed(q))
}

/// Whether the predicate answered `answer` for `item` and some text whose
/// characters are `q`.
pub open spec fn answered<T, F: Fn(&T, &str) -> bool>(f: F, item: &T, q: Seq<char>, answer: bool) -> bool {
    exists|s: &str| s@ == q && call_ensures(f, (item, s), answer)
}

/// Whether `m` lists, in increasing order, exactly the rows that the
/// predicate accepted for the query `q`.
pub open spec fn lists_matches<T, F: Fn(&T, &str) -> bool>(m: Seq<usize>, items: Seq<T>, f: F, q: Seq<char>) -> bool {
    &&& forall|k: int| 0 <= k < m.len() ==> (m[k] as int) < items.len()
    &&& forall|k: int, l: int| 0 <= k < l < m.len() ==> m[k] < m[l]
    &&& forall|i: int| #![trigger items[i]] 0 <= i < items.len() ==>
            (m.contains(i as usize) ==> answered(f, &items[i], q, true))
    &&& forall|i: int| #![trigger items[i]] 0 <= i < items.len() ==>
            (!m.contains(i as usize) ==> answered(f, &items[i], q, false))
}

/// Runs the search: the query is trimmed and lowered, and every row that
/// `matches` accepts for it is listed, in order. An empty query lists
/// nothing. The first match becomes the current one.
pub fn search_items<T, F: Fn(&T, &str) -> bool>(search: &mut SearchState, items: &[T], matches: F)
    requires
        forall|t: &T, s: &str| call_requires(matches, (t, s)),
    ensures
        final(search).query == old(search).query,
        final(search).current_match == 0,
        normalized_query(old(search).query@).len() == 0 ==> final(search).matches@.len() == 0,
        normalized_query(old(search).query@).len() > 0 ==>
            lists_matches(final(search).matches@, items@, matches, normalized_query(old(search).query@)),
{
    let trimmed_query = trim(search.query.as_str());
    let query = to_lowercase(trimmed_query);
    search.matches.clear();
    search.current_match = 0;
    if query.as_str().is_empty() {
        return;
    }
    let ghost q = query@;
    let mut found: Vec<usize> = Vec::new();
    let mut i: usize = 0;
    while i < items.len()
        invariant
            forall|t: &T, s: &str| call_requires(matches, (t, s)),
            q == query@,
            i <= items@.len(),
            items.len() == items@.len(),
            forall|k: int| 0 <= k < found@.len() ==> found@[k] < i,
            forall|k: int, l: int| 0 <= k < l < found@.len() ==> found@[k] < found@[l],
            forall|j: int| #![trigger items@[j]] 0 <= j < i ==>
                (found@.contains(j as usize) ==> answered(matches, &items@[j], q, true)),
            forall|j: int| #![trigger items@[j]] 0 <= j < i ==>
                (!found@.contains(j as usize) ==> answered(matches, &items@[j], q, false)),
        decreases items@.len() - i,
    {
        let qs = query.as_str();
        let hit = matches(&items[i], qs);
        let ghost before = found@;
        if hit {
            found.push(i);
        }
        assert(call_ensures(matches, (&items@[i as int], qs), hit));
        assert(answered(matches, &items@[i as int], q, hit));
        assert forall|j: int| 0 <= j < i + 1 && #[trigger] found@.contains(j as usize) implies
            answered(matches, &items@[j], q, true) by {
            if j < i {
                if found@.contains(j as usize) {
                    let k = choose|k: int| 0 <= k < found@.len() && found@[k] == j as usize;
                    if k < before.len() {
                        assert(before[k] == j as usize);
                        assert(before.contains(j as usize));
                    }
                }
            } else if found@.contains(j as usize) {
                if !hit {
                    let k = choose|k: int| 0 <= k < found@.len() && found@[k] == j as usize;
                    assert(before[k] < i);
                }
            }
        }
        assert forall|j: int| 0 <= j < i + 1 && !#[trigger] found@.contains(j as usize) implies
            answered(matches, &items@[j], q, false) by {
            if j < i {
                if !found@.contains(j as usize) {
                    if before.contains(j as usize) {
                        let k = choose|k: int| 0 <= k < before.len() && before[k] == j as usize;
                        assert(found@[k] == j as usize);
                    }
                }
            } else if !found@.contains(j as usize) {
                if hit {
                    assert(found@[found@.len() - 1] == i);
                }
            }
        }
        i = i + 1;
    }
    search.matches = found;
}

/// The match after `current`, wrapping to the first.
pub open spec fn next_index(current: int, len: int) -> int {
    (current + 1) % len
}

/// The match before `current`, wrapping to the last.
pub open spec fn previous_index(current: int, len: int) -> int {
    if current == 0 { len - 1 } else { current - 1 }
}

/// Goes to the next match, wrapping around. Nothing happens without matches.
pub fn next_match(search: &mut SearchState)
    requires
        old(search).matches@.len() > 0 ==> old(search).current_match < usize::MAX,
    ensures
        final(search).query == old(search).query,
        final(search).matches == old(search).matches,
        old(search).matches@.len() == 0 ==> final(search).current_match == old(search).current_match,
        old(search).matches@.len() > 0 ==> final(search).current_match
            == next_index(old(search).current_match as int, old(search).matches@.len() as int),
{
    if search.matches.is_empty() {
        return;
    }
    search.current_match = (search.current_match + 1) % search.matches.len();
}

/// Goes to the previous match, wrapping around. Nothing happens without
/// matches.
pub fn previous_match(search: &mut SearchState)
    ensures
        final(search).query == old(search).query,
        final(search).matches == old(search).matches,
        old(search).matches@.len() == 0 ==> final(search).current_match == old(search).current_match,
        old(search).matches@.len() > 0 ==> final(search).current_match
            == previous_index(old(search).current_match as int, old(search).matches@.len() as int),
{
    if search.matches.is_empty() {
        return;
    }
    if search.current_match == 0 {
        search.current_match = search.matches.len() - 1;
    } else {
        search.current_match = search.current_match - 1;
    }
}

/// A search with no query and no matches.
pub open spec fn is_blank(search: SearchState) -> bool {
    &&& search.query@ == Seq::<char>::empty()
    &&& search.matches@ == Seq::<usize>::empty()
    &&& search.current_match == 0
}

/// Forgets the query and its matches.
pub fn clear(search: &mut SearchState)
    ensures
        is_blank(*final(search)),
{
    search.query = String::new();
    search.matches.clear();
    search.current_match = 0;
}

/// What a key means while moving between matches: Esc and `q` cancel,
/// every other key goes on.
pub open spec fn navigation_result(key: Key) -> SearchNavigationResult {
    match key.code {
        KeyCode::Esc | KeyCode::Char('q') => SearchNavigationResult::Cancel,
        _ => SearchNavigationResult::Continue,
    }
}

/// The search after a key that goes on while moving between matches.
pub open spec fn navigated(search: SearchState, key: Key) -> SearchState {
    SearchState { current_match: navigated_match(search, key), ..search }
}

/// The current match after a key that goes on: `n` steps forward and `N`
/// back, around the list; other keys keep it.
pub open spec fn navigated_match(search: SearchState, key: Key) -> usize {
    let len = search.matches@.len() as int;
    match key.code {
        KeyCode::Char('n') => if len == 0 { search.current_match } else { next_index(search.current_match as int, len) as usize },
        KeyCode::Char('N') => if len == 0 { search.current_match } else { previous_index(search.current_match as int, len) as usize },
        _ => search.current_match,
    }
}

/// Handles a key while moving between matches: `n` and `N` step forward
/// and back, Esc or `q` clear the search and cancel, other keys do nothing.
pub fn handle_search_navigation(search: &mut SearchState, key: Key) -> (r: SearchNavigationResult)
    requires
        old(search).matches@.len() > 0 ==> old(search).current_match < usize::MAX,
    ensures
        r == navigation_result(key),
        r == SearchNavigationResult::Cancel ==> is_blank(*final(search)),
        r == SearchNavigationResult::Continue ==> {
            &&& final(search).query == old(search).query
            &&& final(search).matches == old(search).matches
            &&& final(search).current_match == navigated_match(*old(search), key)
        },
{
    match key.code {
        KeyCode::Char('n') => {
            next_match(search);
            SearchNavigationResult::Continue
        },
        KeyCode::Char('N') => {
            previous_match(search);
            SearchNavigationResult::Continue
        },
        KeyCode::Esc | KeyCode::Char('q') => {
            clear(search);
            SearchNavigationResult::Cancel
        },
        _ => SearchNavigationResult::Continue,
    }
}

/// What a key does to the query while it is typed: a character is
/// appended, Backspace removes the last one, other keys leave it.
pub open spec fn edited_query(q: Seq<char>, key: Key) -> Seq<char> {
    match key.code {
        KeyCode::Char(c) => q.push(c),
        KeyCode::Backspace => if q.len() == 0 { q } else { q.drop_last() },
        _ => q,
    }
}

/// What a key means while a query is typed: Enter moves between the
/// matches when there are any, Esc cancels, every other key goes on typing.
pub open spec fn input_result(search: SearchState, key: Key) -> SearchInputResult {
    match key.code {
        KeyCode::Enter => if search.matches@.len() == 0 { SearchInputResult::Continue } else { SearchInputResult::Navigate },
        KeyCode::Esc => SearchInputResult::Cancel,
        _ => SearchInputResult::Continue,
    }
}

/// Handles a key while typing a query: characters are appended, Backspace
/// removes the last one, Enter starts moving between matches when there are
/// any, Esc cancels. The caller reruns the search on `Continue`.
pub fn handle_search_input(search: &mut SearchState, key: Key) -> (r: SearchInputResult)
    ensures
        final(search).matches == old(search).matches,
        final(search).current_match == old(search).current_match,
        final(search).query@ == edited_query(old(search).query@, key),
        r == input_result(*old(search), key),
        match key.code {
            KeyCode::Char(_) | KeyCode::Backspace => true,
            _ => final(search).query == old(search).query,
        },
{
    match key.code {
        KeyCode::Char(c) => {
            push_char(&mut search.query, c);
            SearchInputResult::Continue
        },
        KeyCode::Backspace => {
            pop_char(&mut search.query);
            SearchInputResult::Continue
        },
        KeyCode::Enter => {
            if search.matches.is_empty() {
                SearchInputResult::Continue
            } else {
                SearchInputResult::Navigate
            }
        },
        KeyCode::Esc => SearchInputResult::Cancel,
        _ => SearchInputResult::Continue,
    }
}

/// Going to the next match and then back returns to the same match, and so
/// does going back and then forward.
pub proof fn lemma_next_previous_inverse(current: int, len: int)
    requires
        0 <= current < len,
    ensures
        previous_index(next_index(current, len), len) == current,
        next_index(previous_index(current, len), len) == current,
        0 <= next_index(current, len) < len,
        0 <= previous_index(current, len) < len,
{
    if current + 1 < len {
        vstd::arithmetic::div_mod::lemma_small_mod((current + 1) as nat, len as nat);
    } else {
        vstd::arithmetic::div_mod::lemma_mod_self_0(len);
    }
    if current == 0 {
        vstd::arithmetic::div_mod::lemma_mod_self_0(len);
    } else {
        vstd::arithmetic::div_mod::lemma_small_mod(current as nat, len as nat);
    }
}

} // verus!
