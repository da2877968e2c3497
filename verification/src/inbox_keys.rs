//! The keys of the inbox panel: typing a search, moving between its
//! matches, and the panel's commands.
use vstd::prelude::*;
use crate::app::{App, Store};
use crate::inbox_actions::{
    delete_inbox_item, edit_inbox_item, entry_editable, inbox_add_opened, inbox_entries_deleted,
    inbox_entry_opened, inbox_info_opened, inbox_item_add_popup, inbox_item_info, inbox_search_selection,
    search_inbox,
};
use crate::keys::{Key, KeyCode};
use crate::search::{
    SearchInputResult, SearchNavigationResult, clear, edited_query, handle_search_input,
    handle_search_navigation, input_result, is_blank, navigated, navigation_result,
};
use crate::selection::{Selectable, SelectionState};
use crate::task_actions::block_in;
use crate::types::{NavigationMode, Panel};

verus! {

/// What the inbox does with a key: the inbox to be stored, and a text to
/// put on the clipboard.
pub struct InboxKeyEffect {
    pub store: Option<Store>,
    pub copy: Option<String>,
}

/// What a key does while an inbox search is typed: typing selects the first
/// entry that contains the query, Enter with matches starts moving between
/// them, Esc drops the search.
pub open spec fn inbox_search_typed(o: App, f: App, key: Key) -> bool {
    match input_result(o.inbox_search, key) {
        SearchInputResult::Continue => {
            &&& f.inbox_search.query@ == edited_query(o.inbox_search.query@, key)
            &&& f.inbox_search.matches == o.inbox_search.matches
            &&& f.inbox_search.current_match == o.inbox_search.current_match
            &&& f == (App {
                inbox_search: f.inbox_search,
                inbox_tasks_table_state: inbox_search_selection(o, f.inbox_search.query@),
                ..o
            })
        },
        SearchInputResult::Navigate => f == (App { n_mode: NavigationMode::SearchNavigation, ..o }),
        SearchInputResult::Cancel => {
            &&& is_blank(f.inbox_search)
            &&& f == (App {
                inbox_search: f.inbox_search,
                search_panel: None,
                pending_command: None,
                n_mode: NavigationMode::Normal,
                ..o
            })
        },
    }
}

/// What a key does while moving between the matches of an inbox search:
/// `n` and `N` step and select the current match, Esc and `q` drop the
/// search.
pub open spec fn inbox_search_navigated(o: App, f: App, key: Key) -> bool {
    match navigation_result(key) {
        SearchNavigationResult::Continue => {
            let s = navigated(o.inbox_search, key);
            f == (App {
                inbox_search: s,
                inbox_tasks_table_state: if (s.current_match as int) < s.matches@.len() {
                    SelectionState { selected: Some(s.matches@[s.current_match as int]), ..o.inbox_tasks_table_state }
                } else {
                    o.inbox_tasks_table_state
                },
                ..o
            })
        },
        SearchNavigationResult::Cancel => {
            &&& is_blank(f.inbox_search)
            &&& f == (App { inbox_search: f.inbox_search, pending_command: None, n_mode: NavigationMode::Normal, ..o })
        },
    }
}

/// What a command key of the inbox does: `a` adds an entry, `i` shows the
/// selected one, `e` edits it, `y` hands its text over for the clipboard,
/// `dd` deletes; any other key clears the pending command.
pub open spec fn inbox_command(o: App, f: App, key: Key, r: InboxKeyEffect) -> bool {
    match key.code {
        KeyCode::Char('a') => r.store is None && r.copy is None && inbox_add_opened(o, f),
        KeyCode::Char('i') => r.store is None && r.copy is None && f == inbox_info_opened(o),
        KeyCode::Char('e') => r.store is None && r.copy is None && inbox_entry_opened(o, f),
        KeyCode::Char('y') => {
            &&& r.store is None
            &&& f == o
            &&& r.copy == (match o.inbox_tasks_table_state.selected {
                Some(i) => Some(o.inbox_items@[i as int].input),
                None => None,
            })
        },
        KeyCode::Char('d') => r.copy is None && if o.pending_command == Some('d') {
            exists|g: App| inbox_entries_deleted(o, g, r.store) && f == (App { pending_command: None, ..g })
        } else {
            r.store is None && f == (App { pending_command: Some('d'), ..o })
        },
        _ => r.store is None && r.copy is None && f == (App { pending_command: None, ..o }),
    }
}

/// Whether a key starts a search of the inbox.
pub open spec fn starts_inbox_search(o: App, key: Key) -> bool {
    o.n_mode == NavigationMode::Normal && o.focused_panel == Panel::Inbox && key.code == KeyCode::Char('/')
}

/// What a key does in the inbox panel.
pub open spec fn inbox_key_handled(o: App, f: App, key: Key, r: InboxKeyEffect) -> bool {
    if o.n_mode == NavigationMode::Search {
        r.store is None && r.copy is None && inbox_search_typed(o, f, key)
    } else if o.n_mode == NavigationMode::SearchNavigation {
        r.store is None && r.copy is None && inbox_search_navigated(o, f, key)
    } else if starts_inbox_search(o, key) {
        &&& r.store is None && r.copy is None
        &&& is_blank(f.inbox_search)
        &&& f == (App {
            inbox_search: f.inbox_search,
            n_mode: NavigationMode::Search,
            search_panel: Some(Panel::Inbox),
            pending_command: None,
            ..o
        })
    } else {
        inbox_command(o, f, key, r)
    }
}

/// Whether the inbox can handle any key: the selection and the block to
/// delete lie within the entries, and the selected text can be edited.
pub open spec fn inbox_keys_ready(app: App) -> bool {
    &&& entry_editable(app)
    &&& block_in(app.n_mode, app.n_visual_start, app.inbox_tasks_table_state.selected, app.inbox_items@.len() as int)
    &&& app.inbox_search.matches@.len() > 0 ==> app.inbox_search.current_match < usize::MAX
}

fn type_search(app: &mut App, key: Key)
    ensures
        inbox_search_typed(*old(app), *final(app), key),
{
    match handle_search_input(&mut app.inbox_search, key) {
        SearchInputResult::Continue => {
            search_inbox(app);
        },
        SearchInputResult::Navigate => {
            app.n_mode = NavigationMode::SearchNavigation;
        },
        SearchInputResult::Cancel => {
            clear(&mut app.inbox_search);
            app.search_panel = None;
            app.pending_command = None;
            app.n_mode = NavigationMode::Normal;
        },
    }
}

fn step_search(app: &mut App, key: Key)
    requires
        old(app).inbox_search.matches@.len() > 0 ==> old(app).inbox_search.current_match < usize::MAX,
    ensures
        inbox_search_navigated(*old(app), *final(app), key),
{
    match handle_search_navigation(&mut app.inbox_search, key) {
        SearchNavigationResult::Continue => {
            if app.inbox_search.current_match < app.inbox_search.matches.len() {
                let index = app.inbox_search.matches[app.inbox_search.current_match];
                app.inbox_tasks_table_state.select(Some(index));
            }
        },
        SearchNavigationResult::Cancel => {
            app.pending_command = None;
            app.n_mode = NavigationMode::Normal;
        },
    }
}

fn run_command(app: &mut App, key: Key) -> (r: InboxKeyEffect)
    requires
        inbox_keys_ready(*old(app)),
    ensures
        inbox_command(*old(app), *final(app), key, r),
{
    match key.code {
        KeyCode::Char('a') => {
            inbox_item_add_popup(app);
            InboxKeyEffect { store: None, copy: None }
        },
        KeyCode::Char('i') => {
            inbox_item_info(app);
            InboxKeyEffect { store: None, copy: None }
        },
        KeyCode::Char('e') => {
            edit_inbox_item(app);
            InboxKeyEffect { store: None, copy: None }
        },
        KeyCode::Char('y') => {
            let copy = app.copy_inbox_input();
            InboxKeyEffect { store: None, copy }
        },
        KeyCode::Char('d') => {
            if app.pending_command == Some('d') {
                let store = delete_inbox_item(app);
                let ghost g = *app;
                app.pending_command = None;
                assert(inbox_entries_deleted(*old(app), g, store));
                InboxKeyEffect { store, copy: None }
            } else {
                app.pending_command = Some('d');
                InboxKeyEffect { store: None, copy: None }
            }
        },
        _ => {
            app.pending_command = None;
            InboxKeyEffect { store: None, copy: None }
        },
    }
}

/// Handles a key in the inbox panel. While a search is typed or its matches
/// are stepped through, the key goes to the search; `/` starts one;
/// otherwise the key is a command.
pub fn handle_keys(app: &mut App, key: Key) -> (r: InboxKeyEffect)
    requires
        inbox_keys_ready(*old(app)),
    ensures
        inbox_key_handled(*old(app), *final(app), key, r),
{
    if app.n_mode == NavigationMode::Search {
        type_search(app, key);
        return InboxKeyEffect { store: None, copy: None };
    }
    if app.n_mode == NavigationMode::SearchNavigation {
        step_search(app, key);
        return InboxKeyEffect { store: None, copy: None };
    }
    if app.n_mode == NavigationMode::Normal && app.focused_panel == Panel::Inbox && key.code == KeyCode::Char('/') {
        clear(&mut app.inbox_search);
        app.n_mode = NavigationMode::Search;
        app.search_panel = Some(Panel::Inbox);
        app.pending_command = None;
        return InboxKeyEffect { store: None, copy: None };
    }
    run_command(app, key)
}


/// Tells whether the inbox can take a key: the selection and the block to
/// delete lie within the entries.
pub fn inbox_keys_fit(app: &App) -> (r: bool)
    ensures
        r == inbox_keys_ready(*app),
{
    let n = app.inbox_items.len();
    let row_ok = match app.inbox_tasks_table_state.selected() {
        Some(i) => i < n && app.inbox_items[i].input.as_str().unicode_len() < usize::MAX,
        None => true,
    };
    let block_ok = match app.inbox_tasks_table_state.selected() {
        Some(c) => {
            let (_, last) = crate::lists::action_bounds(app.n_mode, app.n_visual_start, c);
            last < n
        },
        None => true,
    };
    let search_ok = app.inbox_search.matches.len() == 0 || app.inbox_search.current_match < usize::MAX;
    row_ok && block_ok && search_ok
}

} // verus!
