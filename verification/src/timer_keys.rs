//! The keys of the timers panel and of the finished-timer popup.
use vstd::prelude::*;
use crate::app::{App, Store};
use crate::clock::{Clock, Moment};
use crate::keys::{Key, KeyCode};
use crate::lists::clamped_selection;
use crate::task_actions::row_in;
use crate::timer_actions::{
    add_timer, delete_timer, finish_timer, move_down, move_left, move_right, move_up, moved_down,
    moved_left, moved_right, moved_up, start_stop_at, timer_add_opened, timer_deleted,
    timer_started_or_paused, save_timer_at, timer_popup_saved,
};
use crate::types::{InputMode, Popup, TimerSelectedInput, TimersPopup};
use crate::task_popup_keys::is_field_key;
use crate::text_input::input_edited;
use crate::timers::duration_fits;

verus! {

/// What a key does in the timers panel at `now`: `a` adds a timer, `s`
/// starts or pauses the selected one, `h`, `l`, `k` and `j` move through
/// the grid, `dd` deletes; any other key clears the pending command.
pub open spec fn timer_key_handled(o: App, f: App, key: Key, now: Moment) -> bool {
    match key.code {
        KeyCode::Char('a') => timer_add_opened(o, f),
        KeyCode::Char('s') => timer_started_or_paused(o, f, now),
        KeyCode::Char('l') => f == moved_right(o),
        KeyCode::Char('h') => f == moved_left(o),
        KeyCode::Char('k') => f == moved_up(o),
        KeyCode::Char('j') => f == moved_down(o),
        KeyCode::Char('d') => if o.pending_command == Some('d') {
            timer_deleted(o, f)
        } else {
            f == (App { pending_command: Some('d'), ..o })
        },
        _ => f == (App { pending_command: None, ..o }),
    }
}

/// Handles a key in the timers panel at `now`.
pub fn handle_keys_at(app: &mut App, key: Key, now: Moment)
    requires
        row_in(old(app).timers_list_state.selected, old(app).timers@.len() as int),
    ensures
        timer_key_handled(*old(app), *final(app), key, now),
{
    let n = app.timers.len();
    match key.code {
        KeyCode::Char('a') => add_timer(app),
        KeyCode::Char('s') => start_stop_at(app, now),
        KeyCode::Char('l') => move_right(app),
        KeyCode::Char('h') => move_left(app),
        KeyCode::Char('k') => move_up(app),
        KeyCode::Char('j') => move_down(app),
        KeyCode::Char('d') => {
            if app.pending_command == Some('d') {
                delete_timer(app);
            } else {
                app.pending_command = Some('d');
            }
        },
        _ => {
            app.pending_command = None;
        },
    }
}

/// Handles a key in the timers panel now, on `clock`.
pub fn handle_keys(app: &mut App, key: Key, clock: &mut Clock)
    requires
        row_in(old(app).timers_list_state.selected, old(app).timers@.len() as int),
    ensures
        final(clock)@ >= old(clock)@,
        exists|now: Moment| now.tick == final(clock)@ && #[trigger] timer_key_handled(*old(app), *final(app), key, now),
{
    let now = clock.now();
    handle_keys_at(app, key, now);
}

/// Handles a key in the popup of a finished timer: `q` or Enter removes the
/// timer, keeps a timer selected if any is left and closes the popup; the
/// timers are then to be stored. Other keys, or another popup, do nothing.
pub fn handle_finished_keys(app: &mut App, key: Key) -> (store: Option<Store>)
    requires
        old(app).popup matches Popup::Timers(TimersPopup::TimerFinished(i)) ==> (i as int) < old(app).timers@.len(),
    ensures
        match (old(app).popup, key.code) {
            (Popup::Timers(TimersPopup::TimerFinished(i)), KeyCode::Char('q'))
            | (Popup::Timers(TimersPopup::TimerFinished(i)), KeyCode::Enter) => {
                &&& store == Some(Store::Timers)
                &&& final(app).timers@ == old(app).timers@.remove(i as int)
                &&& final(app).timers_list_state.selected == clamped_selection(i as int, final(app).timers@.len() as int)
                &&& *final(app) == (App {
                    timers: final(app).timers,
                    timers_list_state: final(app).timers_list_state,
                    popup: Popup::Closed,
                    ..*old(app)
                })
            },
            _ => store is None && *final(app) == *old(app),
        },
{
    match app.popup {
        Popup::Timers(TimersPopup::TimerFinished(index)) => match key.code {
            KeyCode::Char('q') | KeyCode::Enter => Some(finish_timer(app, index)),
            _ => None,
        },
        _ => None,
    }
}

/// Closes the timer popup, except while the name is typed in insert mode.
pub fn close_timer_popup(app: &mut App)
    ensures
        *final(app) == (if old(app).timer_selected_input == TimerSelectedInput::Name && old(app).mode != InputMode::Normal {
            *old(app)
        } else {
            App { popup: Popup::Closed, ..*old(app) }
        }),
{
    if app.timer_selected_input == TimerSelectedInput::Name {
        if app.mode == InputMode::Normal {
            app.popup = Popup::Closed;
        }
        return;
    }
    app.popup = Popup::Closed;
}

/// The field after Tab (or `j`) in the timer popup; the name keeps the
/// focus for `j` while it is typed.
pub open spec fn next_timer_field(f: TimerSelectedInput, mode: InputMode, key: Key) -> TimerSelectedInput {
    match f {
        TimerSelectedInput::Name => if mode != InputMode::Insert || key.code == KeyCode::Tab {
            TimerSelectedInput::Duration
        } else {
            TimerSelectedInput::Name
        },
        TimerSelectedInput::Duration => TimerSelectedInput::Name,
    }
}

/// The field after BackTab (or `k`) in the timer popup.
pub open spec fn previous_timer_field(f: TimerSelectedInput, mode: InputMode, key: Key) -> TimerSelectedInput {
    match f {
        TimerSelectedInput::Name => if mode != InputMode::Insert || key.code == KeyCode::BackTab {
            TimerSelectedInput::Duration
        } else {
            TimerSelectedInput::Name
        },
        TimerSelectedInput::Duration => TimerSelectedInput::Name,
    }
}

/// The timer popup after closing it, except while the name is typed.
pub open spec fn timer_popup_closed(o: App) -> App {
    if o.timer_selected_input == TimerSelectedInput::Name && o.mode != InputMode::Normal {
        o
    } else {
        App { popup: Popup::Closed, ..o }
    }
}

/// What a key does in the timer popup at `now`: while the name is typed,
/// characters, Backspace, Left and Right edit it; otherwise Tab and `j`,
/// BackTab and `k` switch between name and duration, Enter saves the timer
/// and `q` or Esc closes the popup.
pub open spec fn timer_popup_key_handled(o: App, f: App, key: Key, now: u64) -> bool {
    if o.timer_selected_input == TimerSelectedInput::Name && o.mode == InputMode::Insert && is_field_key(key) {
        input_edited(o.timer_name, f.timer_name, key) && f == (App { timer_name: f.timer_name, ..o })
    } else {
        match key.code {
            KeyCode::Tab | KeyCode::Char('j') => f == (App { timer_selected_input: next_timer_field(o.timer_selected_input, o.mode, key), ..o }),
            KeyCode::BackTab | KeyCode::Char('k') => f == (App { timer_selected_input: previous_timer_field(o.timer_selected_input, o.mode, key), ..o }),
            KeyCode::Enter => timer_popup_saved(o, f, now),
            KeyCode::Char('q') | KeyCode::Esc => f == timer_popup_closed(o),
            _ => f == o,
        }
    }
}

fn move_timer_field(app: &mut App, key: Key)
    ensures
        (key.code == KeyCode::Tab || key.code == KeyCode::Char('j')) ==>
            *final(app) == (App { timer_selected_input: next_timer_field(old(app).timer_selected_input, old(app).mode, key), ..*old(app) }),
        !(key.code == KeyCode::Tab || key.code == KeyCode::Char('j')) ==>
            *final(app) == (App { timer_selected_input: previous_timer_field(old(app).timer_selected_input, old(app).mode, key), ..*old(app) }),
{
    let forward = key.code == KeyCode::Tab || key.code == KeyCode::Char('j');
    let back_key = if forward { KeyCode::Tab } else { KeyCode::BackTab };
    app.timer_selected_input = match app.timer_selected_input {
        TimerSelectedInput::Name => if app.mode != InputMode::Insert || key.code == back_key {
            TimerSelectedInput::Duration
        } else {
            TimerSelectedInput::Name
        },
        TimerSelectedInput::Duration => TimerSelectedInput::Name,
    };
}

fn type_timer_name(app: &mut App, key: Key)
    requires
        old(app).timer_name.cursor_in_text(),
    ensures
        input_edited(old(app).timer_name, final(app).timer_name, key),
        *final(app) == (App { timer_name: final(app).timer_name, ..*old(app) }),
{
    app.timer_name.handle_key(key);
}

/// Handles a key in the timer popup at `now`.
pub fn handle_timer_popup_keys_at(app: &mut App, key: Key, now: u64)
    requires
        old(app).timer_name.cursor_in_text(),
        duration_fits(old(app).timer_duration.value@),
    ensures
        timer_popup_key_handled(*old(app), *final(app), key, now),
{
    let field_key = match key.code {
        KeyCode::Char(_) | KeyCode::Backspace | KeyCode::Left | KeyCode::Right => true,
        _ => false,
    };
    if app.timer_selected_input == TimerSelectedInput::Name && app.mode == InputMode::Insert && field_key {
        type_timer_name(app, key);
        return;
    }
    match key.code {
        KeyCode::Tab | KeyCode::Char('j') | KeyCode::BackTab | KeyCode::Char('k') => move_timer_field(app, key),
        KeyCode::Enter => save_timer_at(app, now),
        KeyCode::Char('q') | KeyCode::Esc => close_timer_popup(app),
        _ => {},
    }
}

} // verus!
