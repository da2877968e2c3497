//! The actions of the timers panel and its popups.
use vstd::prelude::*;
use crate::app::{App, Store, is_cleared};
use crate::countdown::{Countdown, CountdownView, remaining_spec};
use crate::lists::{clamp_selection, clamped_selection};
use crate::selection::{Selectable, SelectionState};
use crate::clock::{Clock, Moment};
use crate::stopwatch::{sat_add, sat_add_wide, sat_sub};
use crate::clock::millis_to_secs;
use crate::task_actions::row_in;
use crate::text::{trim, trimmed};
use crate::timers::{self, TimerInfo, duration_fits, duration_spec, parse_duration, secs_to_millis, millis_of_secs};
use crate::types::{InputMode, NavigationMode, Popup, TimerSelectedInput, TimersPopup};

verus! {

/// The popup to add a timer opened: empty name, duration `00:00:00`.
pub open spec fn timer_add_opened(o: App, f: App) -> bool {
    &&& is_cleared(f.timer_name)
    &&& f.timer_duration.value@ == "00:00:00"@
    &&& f.timer_duration.cursor == 0
    &&& f == (App {
        timer_name: f.timer_name,
        timer_duration: f.timer_duration,
        mode: InputMode::Insert,
        timer_selected_input: TimerSelectedInput::Name,
        popup: Popup::Timers(TimersPopup::AddTimer),
        ..o
    })
}

/// Opens the popup to add a timer: empty name, duration `00:00:00`.
pub fn add_timer(app: &mut App)
    ensures
        timer_add_opened(*old(app), *final(app)),
{
    app.timer_name.clear();
    app.timer_duration.cursor = 0;
    app.timer_duration.value = String::from_str("00:00:00");
    let n = app.timer_name.text.as_str().unicode_len();
    app.timer_name.cursor = n;
    app.mode = InputMode::Insert;
    app.timer_selected_input = TimerSelectedInput::Name;
    app.popup = Popup::Timers(TimersPopup::AddTimer);
}

fn remove_timer(timers: &mut Vec<TimerInfo>, state: &mut SelectionState, index: usize)
    ensures
        final(timers)@ == (if (index as int) < old(timers)@.len() { old(timers)@.remove(index as int) } else { old(timers)@ }),
        final(state).selected == clamped_selection(index as int, final(timers)@.len() as int),
        final(state).offset == (if final(timers)@.len() == 0 { 0 } else { old(state).offset }),
{
    if index < timers.len() {
        timers.remove(index);
    }
    let next = clamp_selection(index, timers.len());
    state.select(next);
}

/// The selected timer was deleted and the next one selected, if any is
/// left; visual mode ended and the pending command was cleared.
pub open spec fn timer_deleted(o: App, f: App) -> bool {
    match o.timers_list_state.selected {
        None => f == (App { pending_command: None, ..o }),
        Some(i) => {
            &&& f.timers@ == (if (i as int) < o.timers@.len() { o.timers@.remove(i as int) } else { o.timers@ })
            &&& f.timers_list_state.selected == clamped_selection(i as int, f.timers@.len() as int)
            &&& f.timers_list_state.offset == (if f.timers@.len() == 0 { 0 } else { o.timers_list_state.offset })
            &&& f == (App {
                timers: f.timers,
                timers_list_state: f.timers_list_state,
                n_mode: NavigationMode::Normal,
                n_visual_start: None,
                pending_command: None,
                ..o
            })
        },
    }
}

/// Deletes the selected timer and keeps one selected if any is left.
/// Visual mode ends and the pending command is cleared.
pub fn delete_timer(app: &mut App)
    ensures
        timer_deleted(*old(app), *final(app)),
{
    if let Some(index) = app.timers_list_state.selected() {
        remove_timer(&mut app.timers, &mut app.timers_list_state, index);
        app.n_mode = NavigationMode::Normal;
        app.n_visual_start = None;
    }
    app.pending_command = None;
}

/// A timer after start/pause at `now`: a running one pauses and shows
/// PAUSED; a paused one starts and shows nothing.
pub open spec fn timer_toggled(o: TimerInfo, f: TimerInfo, now: Moment) -> bool {
    if o.countdown@.ends_at is Some {
        &&& f.countdown@ == (CountdownView {
            ends_at: None,
            ends_at_timestamp: None,
            remaining: sat_sub(o.countdown@.ends_at->0 as int, now.tick as int) as u128,
        })
        &&& f.status@ == "PAUSED"@
        &&& f == (TimerInfo { countdown: f.countdown, status: f.status, ..o })
    } else {
        &&& (if o.countdown@.remaining > 0 {
            f.countdown@ == (CountdownView {
                ends_at: Some(sat_add_wide(now.tick as int, o.countdown@.remaining as int) as u128),
                ends_at_timestamp: Some(crate::countdown::sat_add_i64(millis_to_secs(now.unix_ms) as int, (o.countdown@.remaining / 1000) as int) as i64),
                remaining: o.countdown@.remaining,
            })
        } else {
            f.countdown@ == o.countdown@
        })
        &&& f.status@ == Seq::<char>::empty()
        &&& f == (TimerInfo { countdown: f.countdown, status: f.status, ..o })
    }
}

fn toggle_timer(timer: &mut TimerInfo, now: Moment)
    ensures
        timer_toggled(*old(timer), *final(timer), now),
{
    if timer.countdown.running() {
        timer.countdown.pause_at(now.tick);
        timer.status = String::from_str("PAUSED");
    } else {
        timer.countdown.start_at(now);
        timer.status = String::new();
    }
}

/// Only the selected timer changed: it was started or paused at `now`.
pub open spec fn timer_started_or_paused(o: App, f: App, now: Moment) -> bool {
    match o.timers_list_state.selected {
        None => f == o,
        Some(i) => {
            &&& f.timers@.len() == o.timers@.len()
            &&& timer_toggled(o.timers@[i as int], f.timers@[i as int], now)
            &&& forall|j: int| 0 <= j < o.timers@.len() && j != i ==> #[trigger] f.timers@[j] == o.timers@[j]
            &&& f == (App { timers: f.timers, ..o })
        },
    }
}

/// Starts or pauses the selected timer at `now`.
pub fn start_stop_at(app: &mut App, now: Moment)
    requires
        row_in(old(app).timers_list_state.selected, old(app).timers@.len() as int),
    ensures
        timer_started_or_paused(*old(app), *final(app), now),
{
    if let Some(index) = app.timers_list_state.selected() {
        toggle_timer(&mut app.timers[index], now);
    }
}

/// Starts or pauses the selected timer now on `clock`.
pub fn start_stop(app: &mut App, clock: &mut Clock)
    requires
        row_in(old(app).timers_list_state.selected, old(app).timers@.len() as int),
    ensures
        final(clock)@ >= old(clock)@,
        exists|now: Moment| now.tick == final(clock)@ && #[trigger] timer_started_or_paused(*old(app), *final(app), now),
{
    let now = clock.now();
    start_stop_at(app, now);
    assert(timer_started_or_paused(*old(app), *app, now));
}

/// The timers panel after moving the selection to the left.
pub open spec fn moved_left(o: App) -> App {
    match o.timers_list_state.selected {
        Some(c) => App {
            timers_list_state: SelectionState { selected: Some(if c > 0 { (c - 1) as usize } else { 0 }), ..o.timers_list_state },
            ..o
        },
        None => o,
    }
}

/// Selects the timer to the left.
pub fn move_left(app: &mut App)
    ensures
        *final(app) == moved_left(*old(app)),
{
    if let Some(current) = app.timers_list_state.selected() {
        let prev = timers::left_of(current);
        app.timers_list_state.select(Some(prev));
    }
}

/// The timers panel after moving the selection to the right, stopping at
/// the last timer.
pub open spec fn moved_right(o: App) -> App {
    match o.timers_list_state.selected {
        Some(c) => if o.timers@.len() == 0 {
            o
        } else {
            App {
                timers_list_state: SelectionState {
                    selected: Some(if c + 1 < o.timers@.len() - 1 { (c + 1) as usize } else { (o.timers@.len() - 1) as usize }),
                    ..o.timers_list_state
                },
                ..o
            }
        },
        None => o,
    }
}

/// Selects the timer to the right, stopping at the last one.
pub fn move_right(app: &mut App)
    requires
        old(app).timers_list_state.selected matches Some(c) ==> c < usize::MAX,
    ensures
        *final(app) == moved_right(*old(app)),
{
    if let Some(current) = app.timers_list_state.selected() {
        if let Some(next) = timers::right_of(current, app.timers.len()) {
            app.timers_list_state.select(Some(next));
        }
    }
}

/// The timers panel after moving the selection down the grid.
pub open spec fn moved_down(o: App) -> App {
    match o.timers_list_state.selected {
        Some(c) => match timers::timer_below(c as int, o.timers@.len() as int) {
            Some(v) => App {
                timers_list_state: SelectionState { selected: Some(v as usize), ..o.timers_list_state },
                ..o
            },
            None => o,
        },
        None => o,
    }
}

/// Selects the timer below in the grid, if there is one.
pub fn move_down(app: &mut App)
    ensures
        *final(app) == moved_down(*old(app)),
{
    if let Some(current) = app.timers_list_state.selected() {
        if let Some(target) = timers::below(current, app.timers.len()) {
            app.timers_list_state.select(Some(target));
        }
    }
}

/// The timers panel after moving the selection up the grid.
pub open spec fn moved_up(o: App) -> App {
    match o.timers_list_state.selected {
        Some(c) => match timers::timer_above(c as int, o.timers@.len() as int) {
            Some(v) => App {
                timers_list_state: SelectionState { selected: Some(v as usize), ..o.timers_list_state },
                ..o
            },
            None => o,
        },
        None => o,
    }
}

/// Selects the timer above in the grid, if there is one.
pub fn move_up(app: &mut App)
    ensures
        *final(app) == moved_up(*old(app)),
{
    if let Some(current) = app.timers_list_state.selected() {
        if let Some(target) = timers::above(current, app.timers.len()) {
            app.timers_list_state.select(Some(target));
        }
    }
}

/// Whether the timer popup is open for adding or editing.
pub open spec fn timer_popup_open(p: Popup) -> bool {
    p == Popup::Timers(TimersPopup::AddTimer) || p == Popup::Timers(TimersPopup::EditTimer)
}

/// A new timer, READY, its countdown paused at the whole duration.
pub open spec fn fresh_timer(t: TimerInfo, name: Seq<char>, secs: int) -> bool {
    &&& t.name@ == name
    &&& t.duration == secs
    &&& t.status@ == "READY"@
    &&& t.countdown@ == (CountdownView { ends_at: None, ends_at_timestamp: None, remaining: secs_to_millis(secs as u64) })
}

fn place_timer(timers: &mut Vec<TimerInfo>, state: &mut SelectionState, timer: TimerInfo, adding: bool)
    ensures
        adding ==> final(timers)@ == old(timers)@.push(timer),
        !adding ==> final(timers)@ == (match old(state).selected {
            Some(i) => if (i as int) < old(timers)@.len() { old(timers)@.update(i as int, timer) } else { old(timers)@ },
            None => old(timers)@,
        }),
        *final(state) == (if final(timers)@.len() > 0 {
            SelectionState { selected: Some((final(timers)@.len() - 1) as usize), ..*old(state) }
        } else {
            *old(state)
        }),
{
    if adding {
        timers.push(timer);
    } else if let Some(index) = state.selected() {
        if index < timers.len() {
            timers.set(index, timer);
        }
    }
    if timers.len() > 0 {
        let last = timers.len() - 1;
        state.select(Some(last));
    }
}

/// A READY timer named by the trimmed `name`, for the duration that
/// `value` spells, or `None` when it spells none.
fn make_timer(name: &String, value: &String) -> (r: Option<TimerInfo>)
    requires
        duration_fits(value@),
    ensures
        match duration_spec(value@) {
            None => r is None,
            Some(secs) => r matches Some(t) && fresh_timer(t, trimmed(name@), secs),
        },
{
    let name_str = trim(name.as_str());
    let trimmed_name = String::from_str(name_str);
    let duration = match parse_duration(value.as_str()) {
        Some(d) => d,
        None => return None,
    };
    let ms = millis_of_secs(duration);
    Some(TimerInfo {
        name: trimmed_name,
        duration,
        status: String::from_str("READY"),
        countdown: Countdown::new(ms),
    })
}

/// The timer popup was saved with a valid duration of `secs` seconds.
pub open spec fn timer_saved(o: App, f: App, secs: int) -> bool {
    let adding = o.popup == Popup::Timers(TimersPopup::AddTimer);
    let name = trimmed(o.timer_name.text@);
    &&& adding ==> f.timers@.len() == o.timers@.len() + 1
        && f.timers@.drop_last() == o.timers@
        && fresh_timer(f.timers@.last(), name, secs)
    &&& !adding ==> match o.timers_list_state.selected {
        Some(i) => if (i as int) < o.timers@.len() {
            &&& f.timers@.len() == o.timers@.len()
            &&& fresh_timer(f.timers@[i as int], name, secs)
            &&& forall|j: int| 0 <= j < o.timers@.len() && j != i ==> #[trigger] f.timers@[j] == o.timers@[j]
        } else {
            f.timers@ == o.timers@
        },
        None => f.timers@ == o.timers@,
    }
    &&& f.timers_list_state == (if f.timers@.len() > 0 {
        SelectionState { selected: Some((f.timers@.len() - 1) as usize), ..o.timers_list_state }
    } else {
        o.timers_list_state
    })
    &&& f == (App {
        timers: f.timers,
        timers_list_state: f.timers_list_state,
        popup: Popup::Closed,
        ..o
    })
}

#[verifier::rlimit(60)]
fn store_timer(app: &mut App, timer: TimerInfo, Ghost(secs): Ghost<int>)
    requires
        fresh_timer(timer, trimmed(old(app).timer_name.text@), secs),
    ensures
        timer_saved(*old(app), *final(app), secs),
{
    let ghost o = *app;
    let adding = app.popup == Popup::Timers(TimersPopup::AddTimer);
    place_timer(&mut app.timers, &mut app.timers_list_state, timer, adding);
    app.popup = Popup::Closed;
    if adding {
        assert(app.timers@.drop_last() =~= o.timers@);
    }
}

/// What saving the timer popup at `now` did: an invalid duration is
/// reported in the status line for a second and nothing else changes; a
/// valid one is saved. Nothing happens when the timer popup is not open.
pub open spec fn timer_popup_saved(o: App, f: App, now: u64) -> bool {
    if !timer_popup_open(o.popup) {
        f == o
    } else {
        match duration_spec(o.timer_duration.value@) {
            None => {
                &&& f.status_message matches Some(m) && m@ == "Invalid duration."@
                &&& f == (App {
                    status_message: f.status_message,
                    status_message_until: Some(sat_add(now as int, 1000) as u64),
                    ..o
                })
            },
            Some(secs) => timer_saved(o, f, secs),
        }
    }
}

/// Saves the timer popup at `now`. An invalid duration is reported in the
/// status line and nothing else changes. Otherwise a READY timer with the
/// trimmed name is appended, or replaces the selected one when editing; the
/// last timer is selected and the popup closes. Nothing happens when the
/// timer popup is not open.
pub fn save_timer_at(app: &mut App, now: u64)
    requires
        duration_fits(old(app).timer_duration.value@),
    ensures
        timer_popup_saved(*old(app), *final(app), now),
{
    if !(app.popup == Popup::Timers(TimersPopup::AddTimer) || app.popup == Popup::Timers(TimersPopup::EditTimer)) {
        return;
    }
    match make_timer(&app.timer_name.text, &app.timer_duration.value) {
        None => {
            app.set_status_message_at(String::from_str("Invalid duration."), now);
        },
        Some(timer) => {
            store_timer(app, timer, Ghost(duration_spec(app.timer_duration.value@)->0));
        },
    }
}

/// Saves the timer popup now.
pub fn save_timer(app: &mut App)
    requires
        duration_fits(old(app).timer_duration.value@),
    ensures
        exists|now: u64| #[trigger] timer_popup_saved(*old(app), *final(app), now),
{
    let now = crate::clock::now_millis();
    save_timer_at(app, now);
}

/// Dismisses the finished-timer popup for timer `index`: the timer is
/// removed, the selection stays on the same place or the new last timer,
/// and the popup closes. The timers are to be stored.
pub fn finish_timer(app: &mut App, index: usize) -> (store: Store)
    requires
        (index as int) < old(app).timers@.len(),
    ensures
        store == Store::Timers,
        final(app).timers@ == old(app).timers@.remove(index as int),
        final(app).timers_list_state.selected == clamped_selection(index as int, final(app).timers@.len() as int),
        *final(app) == (App {
            timers: final(app).timers,
            timers_list_state: final(app).timers_list_state,
            popup: Popup::Closed,
            ..*old(app)
        }),
{
    remove_timer(&mut app.timers, &mut app.timers_list_state, index);
    app.popup = Popup::Closed;
    Store::Timers
}

} // verus!
