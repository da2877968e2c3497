//! The keys of the agenda panel: typing a search, moving between its
//! matches, and the panel's commands.
use vstd::prelude::*;
use crate::agenda_actions::{
    event_popup_saved, save_event_at,
    add_event_on, agenda_searched, delete_event_on, deletion_in_list, edit_event_on, event_add_opened,
    event_opened, events_deleted, search_agenda_on, selected_global, window_fits,
};
use crate::app::{App, Store};
use crate::dates::Date;
use crate::keys::{Key, KeyCode};
use crate::search::{
    SearchInputResult, SearchNavigationResult, SearchState, clear, edited_query, handle_search_input,
    handle_search_navigation, input_result, is_blank, navigated, navigation_result,
};
use crate::selection::{Selectable, SelectionState};
use crate::task_popup_keys::is_field_key;
use crate::text_input::input_edited;
use crate::types::{AgendaPopup, AgendaSelectedInput, InputMode, NavigationMode, Panel, Popup};

verus! {

/// What a key does while an agenda search is typed: typing runs the search
/// again, Enter with matches starts moving between them, Esc drops the
/// search.
pub open spec fn agenda_search_typed(o: App, f: App, key: Key, today: Date) -> bool {
    match input_result(o.agenda_search, key) {
        SearchInputResult::Continue => agenda_searched(o, edited_query(o.agenda_search.query@, key), f, today),
        SearchInputResult::Navigate => f == (App { n_mode: NavigationMode::SearchNavigation, ..o }),
        SearchInputResult::Cancel => {
            &&& is_blank(f.agenda_search)
            &&& f == (App { agenda_search: f.agenda_search, n_mode: NavigationMode::Normal, pending_command: None, ..o })
        },
    }
}

/// What a key does while moving between the matches of an agenda search:
/// `n` and `N` step and select the current match's index as a row, Esc
/// and `q` drop the search.
pub open spec fn agenda_search_navigated(o: App, f: App, key: Key) -> bool {
    match navigation_result(key) {
        SearchNavigationResult::Continue => {
            let s = navigated(o.agenda_search, key);
            &&& f == (App {
                agenda_search: s,
                agenda_table_state: if (s.current_match as int) < s.matches@.len() {
                    SelectionState { selected: Some(s.matches@[s.current_match as int]), ..o.agenda_table_state }
                } else {
                    o.agenda_table_state
                },
                ..o
            })
        },
        SearchNavigationResult::Cancel => {
            &&& is_blank(f.agenda_search)
            &&& f == (App { agenda_search: f.agenda_search, n_mode: NavigationMode::Normal, pending_command: None, ..o })
        },
    }
}

/// Whether a key starts a search of the agenda.
pub open spec fn starts_agenda_search(o: App, key: Key) -> bool {
    o.n_mode == NavigationMode::Normal && o.focused_panel == Panel::Agenda && key.code == KeyCode::Char('/')
}

/// What a command key of the agenda panel does on `today`: `a` adds an
/// event, `e` edits the selected one, `i` shows it, `l` lists all events,
/// `dd` deletes; other keys do nothing.
pub open spec fn agenda_command(o: App, f: App, key: Key, today: Date, store: Option<Store>) -> bool {
    match key.code {
        KeyCode::Char('a') => store is None && event_add_opened(o, f, today),
        KeyCode::Char('e') => store is None && event_opened(o, f, today),
        KeyCode::Char('i') => store is None && f == (App { last_popup: o.popup, popup: Popup::Agenda(AgendaPopup::EventInfo), ..o }),
        KeyCode::Char('l') => store is None && f == (App { popup: Popup::Agenda(AgendaPopup::AllEvents), ..o }),
        KeyCode::Char('d') => if o.pending_command == Some('d') {
            &&& events_deleted(o, f, today)
            &&& store == (if selected_global(o, today) is Some { Some(Store::Agenda) } else { None })
        } else {
            store is None && f == (App { pending_command: Some('d'), ..o })
        },
        _ => store is None && f == o,
    }
}

/// What a key does in the agenda panel on `today`.
pub open spec fn agenda_key_handled(o: App, f: App, key: Key, today: Date, store: Option<Store>) -> bool {
    if o.n_mode == NavigationMode::Search {
        store is None && agenda_search_typed(o, f, key, today)
    } else if o.n_mode == NavigationMode::SearchNavigation {
        store is None && agenda_search_navigated(o, f, key)
    } else if starts_agenda_search(o, key) {
        &&& store is None
        &&& is_blank(f.agenda_search)
        &&& f == (App { agenda_search: f.agenda_search, n_mode: NavigationMode::Search, pending_command: None, ..o })
    } else {
        agenda_command(o, f, key, today, store)
    }
}

fn type_search(app: &mut App, key: Key, today: Date)
    requires
        window_fits(today),
        old(app).events@.len() + 3 <= usize::MAX,
    ensures
        agenda_search_typed(*old(app), *final(app), key, today),
{
    let ghost o = *app;
    match handle_search_input(&mut app.agenda_search, key) {
        SearchInputResult::Continue => {
            let ghost mid = *app;
            assert(mid == (App { agenda_search: mid.agenda_search, ..o }));
            search_agenda_on(app, today);
        },
        SearchInputResult::Navigate => {
            app.n_mode = NavigationMode::SearchNavigation;
        },
        SearchInputResult::Cancel => {
            clear(&mut app.agenda_search);
            app.n_mode = NavigationMode::Normal;
            app.pending_command = None;
        },
    }
}

fn step_search(app: &mut App, key: Key)
    requires
        old(app).agenda_search.matches@.len() > 0 ==> old(app).agenda_search.current_match < usize::MAX,
    ensures
        agenda_search_navigated(*old(app), *final(app), key),
{
    match handle_search_navigation(&mut app.agenda_search, key) {
        SearchNavigationResult::Continue => {
            if app.agenda_search.current_match < app.agenda_search.matches.len() {
                let index = app.agenda_search.matches[app.agenda_search.current_match];
                app.agenda_table_state.select(Some(index));
            }
        },
        SearchNavigationResult::Cancel => {
            app.n_mode = NavigationMode::Normal;
            app.pending_command = None;
        },
    }
}

fn run_command(app: &mut App, key: Key, today: Date) -> (store: Option<Store>)
    requires
        window_fits(today),
        old(app).events@.len() + 3 <= usize::MAX,
        deletion_in_list(*old(app), today),
    ensures
        agenda_command(*old(app), *final(app), key, today, store),
{
    match key.code {
        KeyCode::Char('a') => {
            add_event_on(app, today);
            None
        },
        KeyCode::Char('e') => {
            edit_event_on(app, today);
            None
        },
        KeyCode::Char('i') => {
            app.last_popup = app.popup;
            app.popup = Popup::Agenda(AgendaPopup::EventInfo);
            None
        },
        KeyCode::Char('l') => {
            app.popup = Popup::Agenda(AgendaPopup::AllEvents);
            None
        },
        KeyCode::Char('d') => {
            if app.pending_command == Some('d') {
                delete_event_on(app, today)
            } else {
                app.pending_command = Some('d');
                None
            }
        },
        _ => None,
    }
}

/// Handles a key in the agenda panel on `today`. While a search is typed or
/// its matches are stepped through, the key goes to the search; `/` starts
/// one; otherwise the key is a command. The agenda is to be stored when
/// events were deleted.
pub fn handle_keys_on(app: &mut App, key: Key, today: Date) -> (store: Option<Store>)
    requires
        window_fits(today),
        old(app).events@.len() + 3 <= usize::MAX,
        deletion_in_list(*old(app), today),
        old(app).agenda_search.matches@.len() > 0 ==> old(app).agenda_search.current_match < usize::MAX,
    ensures
        agenda_key_handled(*old(app), *final(app), key, today, store),
{
    if app.n_mode == NavigationMode::Search {
        type_search(app, key, today);
        return None;
    }
    if app.n_mode == NavigationMode::SearchNavigation {
        step_search(app, key);
        return None;
    }
    if app.n_mode == NavigationMode::Normal && app.focused_panel == Panel::Agenda && key.code == KeyCode::Char('/') {
        clear(&mut app.agenda_search);
        app.n_mode = NavigationMode::Search;
        app.pending_command = None;
        return None;
    }
    run_command(app, key, today)
}

/// Handles a key in the details of an event: `q` goes back to the popup
/// that was open before; other keys do nothing.
pub fn handle_event_info_keys(app: &mut App, key: Key)
    ensures
        *final(app) == (if key.code == KeyCode::Char('q') { App { popup: old(app).last_popup, ..*old(app) } } else { *old(app) }),
{
    if key.code == KeyCode::Char('q') {
        app.popup = app.last_popup;
    }
}

/// Closes the event popup, except while the name is typed in insert mode.
pub fn close_event_popup(app: &mut App)
    ensures
        *final(app) == (if old(app).agenda_selected_input == AgendaSelectedInput::Name && old(app).mode != InputMode::Normal {
            *old(app)
        } else {
            App { popup: Popup::Closed, ..*old(app) }
        }),
{
    if app.agenda_selected_input == AgendaSelectedInput::Name {
        if app.mode == InputMode::Normal {
            app.popup = Popup::Closed;
        }
        return;
    }
    app.popup = Popup::Closed;
}


/// Tells whether the agenda can take a key on `today`: the block that
/// `dd` would delete lies within the events, and the table's rows can be
/// counted.
pub fn agenda_keys_fit(app: &App, today: Date) -> (r: bool)
    requires
        window_fits(today),
    ensures
        r == (deletion_in_list(*app, today) && app.events@.len() + 3 <= usize::MAX
            && (app.agenda_search.matches@.len() > 0 ==> app.agenda_search.current_match < usize::MAX)),
{
    let n = app.events.len();
    let block_ok = match crate::agenda_actions::get_selected_global_index_on(app, today) {
        Some(c) => {
            let (_, last) = crate::lists::action_bounds(app.n_mode, app.n_visual_start, c);
            last < n
        },
        None => true,
    };
    let search_ok = app.agenda_search.matches.len() == 0 || app.agenda_search.current_match < usize::MAX;
    block_ok && n <= usize::MAX - 3 && search_ok
}

/// The field after Tab (or `j`) in the event popup: name, date, time,
/// repeat, and round; the name keeps the focus for `j` while it is typed.
pub open spec fn next_event_field(f: AgendaSelectedInput, mode: InputMode, key: Key) -> AgendaSelectedInput {
    match f {
        AgendaSelectedInput::Name => if mode != InputMode::Insert || key.code == KeyCode::Tab {
            AgendaSelectedInput::Date
        } else {
            AgendaSelectedInput::Name
        },
        AgendaSelectedInput::Date => AgendaSelectedInput::Time,
        AgendaSelectedInput::Time => AgendaSelectedInput::Repeat,
        AgendaSelectedInput::Repeat => AgendaSelectedInput::Name,
    }
}

/// The field after BackTab (or `k`) in the event popup.
pub open spec fn previous_event_field(f: AgendaSelectedInput, mode: InputMode, key: Key) -> AgendaSelectedInput {
    match f {
        AgendaSelectedInput::Name => if mode != InputMode::Insert || key.code == KeyCode::BackTab {
            AgendaSelectedInput::Repeat
        } else {
            AgendaSelectedInput::Name
        },
        AgendaSelectedInput::Repeat => AgendaSelectedInput::Time,
        AgendaSelectedInput::Time => AgendaSelectedInput::Date,
        AgendaSelectedInput::Date => AgendaSelectedInput::Name,
    }
}

/// The event popup after closing it, except while the name is typed.
pub open spec fn event_popup_closed(o: App) -> App {
    if o.agenda_selected_input == AgendaSelectedInput::Name && o.mode != InputMode::Normal {
        o
    } else {
        App { popup: Popup::Closed, ..o }
    }
}

/// What a key does in the event popup at `now`: while the name is typed,
/// characters, Backspace, Left and Right edit it; on the repeat field,
/// Space and Enter switch it; otherwise Tab and `j` go to the next field,
/// BackTab and `k` to the one before, Enter saves the event and `q` or Esc
/// closes the popup.
pub open spec fn event_popup_key_handled(o: App, f: App, key: Key, now: u64, store: Option<Store>) -> bool {
    if o.agenda_selected_input == AgendaSelectedInput::Name && o.mode == InputMode::Insert && is_field_key(key) {
        store is None && input_edited(o.event_name, f.event_name, key) && f == (App { event_name: f.event_name, ..o })
    } else if o.agenda_selected_input == AgendaSelectedInput::Repeat && (key.code == KeyCode::Char(' ') || key.code == KeyCode::Enter) {
        store is None && f == (App { event_repeat: !o.event_repeat, ..o })
    } else {
        match key.code {
            KeyCode::Tab | KeyCode::Char('j') => store is None
                && f == (App { agenda_selected_input: next_event_field(o.agenda_selected_input, o.mode, key), ..o }),
            KeyCode::BackTab | KeyCode::Char('k') => store is None
                && f == (App { agenda_selected_input: previous_event_field(o.agenda_selected_input, o.mode, key), ..o }),
            KeyCode::Enter => event_popup_saved(o, f, now, store),
            KeyCode::Char('q') | KeyCode::Esc => store is None && f == event_popup_closed(o),
            _ => store is None && f == o,
        }
    }
}

fn move_event_field(app: &mut App, key: Key)
    ensures
        (key.code == KeyCode::Tab || key.code == KeyCode::Char('j')) ==>
            *final(app) == (App { agenda_selected_input: next_event_field(old(app).agenda_selected_input, old(app).mode, key), ..*old(app) }),
        !(key.code == KeyCode::Tab || key.code == KeyCode::Char('j')) ==>
            *final(app) == (App { agenda_selected_input: previous_event_field(old(app).agenda_selected_input, old(app).mode, key), ..*old(app) }),
{
    let forward = key.code == KeyCode::Tab || key.code == KeyCode::Char('j');
    let next = if forward {
        match app.agenda_selected_input {
            AgendaSelectedInput::Name => if app.mode != InputMode::Insert || key.code == KeyCode::Tab {
                AgendaSelectedInput::Date
            } else {
                AgendaSelectedInput::Name
            },
            AgendaSelectedInput::Date => AgendaSelectedInput::Time,
            AgendaSelectedInput::Time => AgendaSelectedInput::Repeat,
            AgendaSelectedInput::Repeat => AgendaSelectedInput::Name,
        }
    } else {
        match app.agenda_selected_input {
            AgendaSelectedInput::Name => if app.mode != InputMode::Insert || key.code == KeyCode::BackTab {
                AgendaSelectedInput::Repeat
            } else {
                AgendaSelectedInput::Name
            },
            AgendaSelectedInput::Repeat => AgendaSelectedInput::Time,
            AgendaSelectedInput::Time => AgendaSelectedInput::Date,
            AgendaSelectedInput::Date => AgendaSelectedInput::Name,
        }
    };
    app.agenda_selected_input = next;
}

fn type_event_name(app: &mut App, key: Key)
    requires
        old(app).event_name.cursor_in_text(),
    ensures
        input_edited(old(app).event_name, final(app).event_name, key),
        *final(app) == (App { event_name: final(app).event_name, ..*old(app) }),
{
    app.event_name.handle_key(key);
}

/// Handles a key in the event popup at `now`. The agenda is to be stored
/// when an event was saved.
pub fn handle_event_popup_keys_at(app: &mut App, key: Key, now: u64) -> (store: Option<Store>)
    requires
        old(app).event_name.cursor_in_text(),
    ensures
        event_popup_key_handled(*old(app), *final(app), key, now, store),
{
    let field_key = match key.code {
        KeyCode::Char(_) | KeyCode::Backspace | KeyCode::Left | KeyCode::Right => true,
        _ => false,
    };
    if app.agenda_selected_input == AgendaSelectedInput::Name && app.mode == InputMode::Insert && field_key {
        type_event_name(app, key);
        return None;
    }
    if app.agenda_selected_input == AgendaSelectedInput::Repeat && (key.code == KeyCode::Char(' ') || key.code == KeyCode::Enter) {
        app.event_repeat = !app.event_repeat;
        return None;
    }
    match key.code {
        KeyCode::Tab | KeyCode::Char('j') | KeyCode::BackTab | KeyCode::Char('k') => {
            move_event_field(app, key);
            None
        },
        KeyCode::Enter => save_event_at(app, now),
        KeyCode::Char('q') | KeyCode::Esc => {
            close_event_popup(app);
            None
        },
        _ => None,
    }
}

} // verus!
