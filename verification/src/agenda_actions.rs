//! The actions of the agenda panel: opening its popups, finding the event
//! on the selected row, searching, deleting and saving events, and the
//! daily clean-up of the event list.
use vstd::prelude::*;
use crate::agenda::{
    AgendaEvent, agenda_sections, sort_events, sorted_events, all_valid, kept_events, kept_on,
    events_rolled, rolled_event_date, remove_expired_events_on, update_repeating_events_on, rolls_in_calendar, events_roll_in_calendar, rolled_forward,
    is_sorted_events, lemma_sorted_events_sorted, event_row, lemma_sections_within_events, lemma_window_rows_in_list,
    row_event, row_of_event, selected_event, today_rows, upcoming_rows, visible_indices, window_rows,
};
use crate::app::{App, Store, is_cleared};
use crate::lists::{action_block, action_bounds, drain_range, without_block};
use crate::search::normalized_query;
use crate::text::{chars_of, contains, contains_seq, lowercased, to_lowercase, trim, trimmed};
use crate::types::NavigationMode;
use crate::dates::{Date, date_le, date_plus_days, dmy_text, fits_days_after, format_dmy, format_hm, has_days_after, hm_text, parse_dmy, parse_hm, parsed_dmy, parsed_hm, valid_date};
use crate::stopwatch::sat_add;
use crate::selection::{Selectable, SelectionState};
use crate::types::{AgendaPopup, AgendaSelectedInput, InputMode, Popup};

verus! {

/// Whether the 30-day window from `today` lies within the calendar.
pub open spec fn window_fits(today: Date) -> bool {
    fits_days_after(today, 30)
}

/// The last day of the agenda's window.
pub open spec fn window_end(today: Date) -> Date {
    date_plus_days(today, 30)
}

/// The event on the agenda's selected row on `today`, as an index into the
/// event list.
pub open spec fn selected_global(app: App, today: Date) -> Option<usize> {
    match app.agenda_table_state.selected {
        Some(row) => row_event(row as int, today_rows(app.events@, today), upcoming_rows(app.events@, today, window_end(today))),
        None => None,
    }
}

/// The agenda's selection after selecting event `e`: the row that shows
/// it, or the selection as it was when the event is not in the window.
pub open spec fn event_selected(app: App, e: usize, today: Date) -> SelectionState {
    match event_row(e, today_rows(app.events@, today), upcoming_rows(app.events@, today, window_end(today))) {
        Some(row) => SelectionState { selected: Some(row as usize), ..app.agenda_table_state },
        None => app.agenda_table_state,
    }
}

/// The event on the agenda's selected row, as an index into the event list.
pub fn get_selected_global_index_on(app: &App, today: Date) -> (r: Option<usize>)
    requires
        window_fits(today),
    ensures
        r == selected_global(*app, today),
{
    let (today_indices, upcoming_indices) = agenda_sections(app.events.as_slice(), today);
    selected_event(app.agenda_table_state.selected(), today_indices.as_slice(), upcoming_indices.as_slice())
}

/// The event on the agenda's selected row today, as an index into the
/// event list. Nothing is found on a day whose window would leave the
/// calendar.
pub fn get_selected_global_index(app: &App) -> (r: Option<usize>)
    ensures
        exists|today: Date| #[trigger] valid_date(today)
            && r == (if window_fits(today) { selected_global(*app, today) } else { None }),
{
    let today = crate::dates::current_date();
    if has_days_after(today, 30) {
        get_selected_global_index_on(app, today)
    } else {
        None
    }
}

/// Selects the row that shows event `event_index` on `today`; an event
/// outside the window leaves the selection as it is.
pub fn select_agenda_event_on(app: &mut App, event_index: usize, today: Date)
    requires
        window_fits(today),
        old(app).events@.len() + 3 <= usize::MAX,
    ensures
        *final(app) == (App { agenda_table_state: event_selected(*old(app), event_index, today), ..*old(app) }),
{
    let (today_indices, upcoming_indices) = agenda_sections(app.events.as_slice(), today);
    proof { lemma_sections_within_events(app.events@, today, window_end(today)); }
    if let Some(row) = row_of_event(event_index, today_indices.as_slice(), upcoming_indices.as_slice()) {
        app.agenda_table_state.select(Some(row));
    }
}

/// Selects the row that shows event `event_index` today.
pub fn select_agenda_event(app: &mut App, event_index: usize)
    requires
        old(app).events@.len() + 3 <= usize::MAX,
    ensures
        exists|today: Date| #[trigger] valid_date(today) && *final(app) == (if window_fits(today) {
            App { agenda_table_state: event_selected(*old(app), event_index, today), ..*old(app) }
        } else {
            *old(app)
        }),
{
    let today = crate::dates::current_date();
    if has_days_after(today, 30) {
        select_agenda_event_on(app, event_index, today);
    }
}

/// Selecting an event whose date lies in the agenda's window and then
/// reading the selected row back, on the same day, gives that event.
pub proof fn lemma_select_then_read(app: App, e: usize, today: Date)
    requires
        window_fits(today),
        e < app.events@.len(),
        app.events@.len() + 3 <= usize::MAX,
        crate::agenda::in_window(app.events@[e as int].date, today, window_end(today)),
    ensures
        selected_global(App { agenda_table_state: event_selected(app, e, today), ..app }, today) == Some(e),
{
    let t = today_rows(app.events@, today);
    let u = upcoming_rows(app.events@, today, window_end(today));
    crate::agenda::lemma_event_in_sections(app.events@, e as int, today, window_end(today));
    crate::agenda::lemma_event_row_round_trip(e, t, u);
    crate::agenda::lemma_event_row_bounds(e, t, u);
    lemma_sections_within_events(app.events@, today, window_end(today));
}

/// The fields of the event popup as they are when adding an event on
/// `today`: no name, today's date, no time, not repeating.
pub open spec fn add_event_fields(o: App, f: App, today: Date) -> bool {
    &&& is_cleared(f.event_name)
    &&& f.event_date.value@ == dmy_text(today)
    &&& f.event_date.cursor == 0
    &&& f.event_date.editable_positions == o.event_date.editable_positions
    &&& f.event_time.value@ == "--:--"@
    &&& f.event_time.cursor == 0
    &&& f.event_time.editable_positions == o.event_time.editable_positions
}

/// The popup to add an event on `today` opened, typing into its name.
pub open spec fn event_add_opened(o: App, f: App, today: Date) -> bool {
    &&& add_event_fields(o, f, today)
    &&& f == (App {
        event_name: f.event_name,
        event_date: f.event_date,
        event_time: f.event_time,
        event_repeat: false,
        mode: InputMode::Insert,
        agenda_selected_input: AgendaSelectedInput::Name,
        popup: Popup::Agenda(AgendaPopup::AddEvent),
        ..o
    })
}

/// Opens the popup to add an event on `today`, typing into its name.
pub fn add_event_on(app: &mut App, today: Date)
    ensures
        event_add_opened(*old(app), *final(app), today),
{
    app.event_name.clear();
    app.event_time.cursor = 0;
    app.event_time.value = String::from_str("--:--");
    app.event_date.cursor = 0;
    app.event_date.value = format_dmy(today);
    app.event_repeat = false;
    app.mode = InputMode::Insert;
    app.agenda_selected_input = AgendaSelectedInput::Name;
    app.popup = Popup::Agenda(AgendaPopup::AddEvent);
}

/// Opens the popup to add an event today.
pub fn add_event(app: &mut App)
    ensures
        exists|today: Date| #[trigger] valid_date(today) && event_add_opened(*old(app), *final(app), today),
{
    let today = crate::dates::current_date();
    add_event_on(app, today);
}

/// The time field's text for an event: `HH:MM`, or `--:--` without a time.
pub open spec fn time_text(t: Option<u32>) -> Seq<char> {
    match t {
        Some(secs) => hm_text(secs as nat),
        None => "--:--"@,
    }
}

/// The popup's fields hold event `e`, every cursor at the start.
pub open spec fn fields_hold_event(o: App, f: App, e: AgendaEvent) -> bool {
    &&& f.event_name.text == e.name
    &&& f.event_name.cursor == 0
    &&& f.event_date.value@ == dmy_text(e.date)
    &&& f.event_date.cursor == 0
    &&& f.event_date.editable_positions == o.event_date.editable_positions
    &&& f.event_time.value@ == time_text(e.time)
    &&& f.event_time.cursor == 0
    &&& f.event_time.editable_positions == o.event_time.editable_positions
}

/// The event popup opened on the event on the selected row on `today`,
/// or nothing changed when no event is selected.
pub open spec fn event_opened(o: App, f: App, today: Date) -> bool {
    match selected_global(o, today) {
        None => f == o,
        Some(i) => {
            &&& fields_hold_event(o, f, o.events@[i as int])
            &&& f == (App {
                event_name: f.event_name,
                event_date: f.event_date,
                event_time: f.event_time,
                event_repeat: o.events@[i as int].repeat,
                mode: InputMode::Normal,
                popup: Popup::Agenda(AgendaPopup::EditEvent),
                agenda_selected_input: AgendaSelectedInput::Name,
                pending_command: None,
                ..o
            })
        },
    }
}

/// Opens the event on the selected row on `today` for editing; without one
/// nothing changes.
pub fn edit_event_on(app: &mut App, today: Date)
    requires
        window_fits(today),
    ensures
        event_opened(*old(app), *final(app), today),
{
    if let Some(index) = get_selected_global_index_on(app, today) {
        let n = app.events.len();
        proof { lemma_selected_in_list(*app, today); }
        let name = app.events[index].name.clone();
        let date_text = format_dmy(app.events[index].date);
        let time_text = match app.events[index].time {
            Some(t) => format_hm(t),
            None => String::from_str("--:--"),
        };
        let repeat = app.events[index].repeat;
        app.event_name.text = name;
        app.event_date.value = date_text;
        app.event_time.value = time_text;
        app.event_repeat = repeat;
        app.event_name.cursor = 0;
        app.event_date.cursor = 0;
        app.event_time.cursor = 0;
        app.mode = InputMode::Normal;
        app.popup = Popup::Agenda(AgendaPopup::EditEvent);
        app.agenda_selected_input = AgendaSelectedInput::Name;
        app.pending_command = None;
    }
}

/// Opens the event on the selected row today for editing.
pub fn edit_event(app: &mut App)
    ensures
        exists|today: Date| #[trigger] valid_date(today)
            && (if window_fits(today) { event_opened(*old(app), *final(app), today) } else { *final(app) == *old(app) }),
{
    let today = crate::dates::current_date();
    if has_days_after(today, 30) {
        edit_event_on(app, today);
    }
}

/// Opens the list of all events.
pub fn all_events(app: &mut App)
    ensures
        *final(app) == (App { popup: Popup::Agenda(AgendaPopup::AllEvents), ..*old(app) }),
{
    app.popup = Popup::Agenda(AgendaPopup::AllEvents);
}

/// Opens the details of the selected event.
pub fn event_info(app: &mut App)
    ensures
        *final(app) == (App { popup: Popup::Agenda(AgendaPopup::EventInfo), ..*old(app) }),
{
    app.popup = Popup::Agenda(AgendaPopup::EventInfo);
}

/// The event on the selected row is one of the list's events.
pub proof fn lemma_selected_in_list(app: App, today: Date)
    requires
        app.events@.len() <= usize::MAX,
    ensures
        selected_global(app, today) matches Some(i) ==> (i as int) < app.events@.len(),
{
    crate::agenda::lemma_rows_in_list(app.events@, today, window_end(today));
}

/// Whether event `e`'s name, in lower case, contains `q`.
pub open spec fn name_matches(e: AgendaEvent, q: Seq<char>) -> bool {
    contains_seq(lowercased(e.name@), q)
}

/// The rows of `rows` whose events' names contain `q`, in order.
pub open spec fn matching_events(events: Seq<AgendaEvent>, rows: Seq<usize>, q: Seq<char>) -> Seq<usize> {
    rows.filter(|i: usize| (i as int) < events.len() && name_matches(events[i as int], q))
}

/// The events that a query finds on `today`: those in the window whose
/// names contain the trimmed, lowered query; none for an empty query.
pub open spec fn matches_for(events: Seq<AgendaEvent>, query: Seq<char>, today: Date) -> Seq<usize> {
    let q = normalized_query(query);
    if q.len() == 0 {
        Seq::empty()
    } else {
        matching_events(events, window_rows(events, today, window_end(today)), q)
    }
}

/// The agenda was searched on `today` for `query`: the matches listed, the
/// first one current and selected, nothing else changed.
pub open spec fn agenda_searched(o: App, query: Seq<char>, f: App, today: Date) -> bool {
    let m = matches_for(o.events@, query, today);
    &&& f.agenda_search.query@ == query
    &&& f.agenda_search.matches@ == m
    &&& f.agenda_search.current_match == 0
    &&& f == (App {
        agenda_search: f.agenda_search,
        agenda_table_state: if m.len() > 0 { event_selected(o, m[0], today) } else { o.agenda_table_state },
        ..o
    })
}

/// Searches the events of the window on `today` for the query: every event
/// whose name contains it, ignoring case and the query's surrounding white
/// space, is listed in order, and the first one is selected.
pub fn search_agenda_on(app: &mut App, today: Date)
    requires
        window_fits(today),
        old(app).events@.len() + 3 <= usize::MAX,
    ensures
        agenda_searched(*old(app), old(app).agenda_search.query@, *final(app), today),
        final(app).agenda_search.query == old(app).agenda_search.query,
{
    let visible = visible_indices(app.events.as_slice(), today);
    let n = app.events.len();
    proof { lemma_window_rows_in_list(app.events@, today, window_end(today)); }
    let query = to_lowercase(trim(app.agenda_search.query.as_str()));
    let q = chars_of(query.as_str());
    app.agenda_search.matches = Vec::new();
    app.agenda_search.current_match = 0;
    if q.len() == 0 {
        return;
    }
    let ghost events = app.events@;
    let ghost rows = visible@;
    let mut found: Vec<usize> = Vec::new();
    let mut k: usize = 0;
    assert(rows.take(0) =~= Seq::<usize>::empty());
    proof { reveal_with_fuel(Seq::filter, 1); }
    while k < visible.len()
        invariant
            k <= rows.len(),
            visible@ == rows,
            app.events@ == events,
            events.len() == n,
            forall|j: int| 0 <= j < rows.len() ==> (#[trigger] rows[j] as int) < n,
            found@ == matching_events(events, rows.take(k as int), q@),
        decreases rows.len() - k,
    {
        let i = visible[k];
        assert(rows.take(k + 1).drop_last() =~= rows.take(k as int));
        assert(rows.take(k + 1).last() == i);
        proof { reveal_with_fuel(Seq::filter, 1); }
        let lower = to_lowercase(app.events[i].name.as_str());
        let t = chars_of(lower.as_str());
        if contains(t.as_slice(), q.as_slice()) {
            found.push(i);
        }
        k = k + 1;
    }
    assert(rows.take(rows.len() as int) =~= rows);
    if found.len() > 0 {
        let first = found[0];
        app.agenda_search.matches = found;
        select_agenda_event_on(app, first, today);
    } else {
        app.agenda_search.matches = found;
    }
}

/// Searches the events of today's window for the query.
pub fn search_agenda(app: &mut App)
    requires
        old(app).events@.len() + 3 <= usize::MAX,
    ensures
        final(app).agenda_search.query == old(app).agenda_search.query,
        exists|today: Date| #[trigger] valid_date(today) && (if window_fits(today) {
            agenda_searched(*old(app), old(app).agenda_search.query@, *final(app), today)
        } else {
            *final(app) == *old(app)
        }),
{
    let today = crate::dates::current_date();
    if has_days_after(today, 30) {
        search_agenda_on(app, today);
    }
}

/// The agenda's selection after deleting events on `today`, `first` being
/// the first deleted index: the row of the event that took the place of the
/// deleted ones (the last event when they were at the end), row 1 when that
/// event is outside the window, and nothing when the window is empty.
pub open spec fn selection_after_delete(events: Seq<AgendaEvent>, first: usize, today: Date) -> Option<usize> {
    let end = window_end(today);
    if window_rows(events, today, end).len() == 0 {
        None
    } else {
        let target = if (first as int) < events.len() - 1 { first } else { (events.len() - 1) as usize };
        match event_row(target, today_rows(events, today), upcoming_rows(events, today, end)) {
            Some(row) => Some(row as usize),
            None => Some(1usize),
        }
    }
}

/// The events on `today` and the agenda's selection after the selected
/// event, or in visual mode the selected block, was deleted.
pub open spec fn events_deleted(o: App, f: App, today: Date) -> bool {
    match selected_global(o, today) {
        None => f == (App { pending_command: None, ..o }),
        Some(c) => {
            let (first, last) = action_block(o.n_mode, o.n_visual_start, c);
            let sel = selection_after_delete(f.events@, first, today);
            &&& f.events@ == without_block(o.events@, first as int, last as int)
            &&& f.agenda_table_state == SelectionState {
                selected: sel,
                offset: if sel is None { 0 } else { o.agenda_table_state.offset },
            }
            &&& f == (App {
                events: f.events,
                agenda_table_state: f.agenda_table_state,
                n_mode: NavigationMode::Normal,
                n_visual_start: None,
                pending_command: None,
                ..o
            })
        },
    }
}

/// Whether deleting the selected events on `today` stays within the list.
pub open spec fn deletion_in_list(app: App, today: Date) -> bool {
    selected_global(app, today) matches Some(c)
        ==> (action_block(app.n_mode, app.n_visual_start, c).1 as int) < app.events@.len()
}

fn select_after_delete(events: &Vec<AgendaEvent>, state: &mut SelectionState, first: usize, today: Date)
    requires
        window_fits(today),
        events@.len() + 3 <= usize::MAX,
    ensures
        *final(state) == (SelectionState {
            selected: selection_after_delete(events@, first, today),
            offset: if selection_after_delete(events@, first, today) is None { 0 } else { old(state).offset },
        }),
{
    let visible = visible_indices(events.as_slice(), today);
    if visible.len() == 0 {
        state.select(None);
        return;
    }
    let n = events.len();
    let target = if first < n - 1 { first } else { n - 1 };
    let (today_indices, upcoming_indices) = agenda_sections(events.as_slice(), today);
    proof { lemma_sections_within_events(events@, today, window_end(today)); }
    match row_of_event(target, today_indices.as_slice(), upcoming_indices.as_slice()) {
        Some(row) => state.select(Some(row)),
        None => state.select(Some(1)),
    }
}

/// Deletes the selected event on `today`, or in visual mode the block from
/// the visual anchor to it, and selects the row of the event that took its
/// place. Visual mode ends and the pending command is cleared; the agenda
/// is to be stored when events were deleted.
pub fn delete_event_on(app: &mut App, today: Date) -> (store: Option<Store>)
    requires
        window_fits(today),
        old(app).events@.len() + 3 <= usize::MAX,
        deletion_in_list(*old(app), today),
    ensures
        events_deleted(*old(app), *final(app), today),
        store == (if selected_global(*old(app), today) is Some { Some(Store::Agenda) } else { None }),
{
    let mut store = None;
    if let Some(current) = get_selected_global_index_on(app, today) {
        let (first, last) = action_bounds(app.n_mode, app.n_visual_start, current);
        drain_range(&mut app.events, first, last);
        select_after_delete(&app.events, &mut app.agenda_table_state, first, today);
        app.n_mode = NavigationMode::Normal;
        app.n_visual_start = None;
        store = Some(Store::Agenda);
    }
    app.pending_command = None;
    store
}

/// Deletes the selected event today, or the selected block in visual mode.
pub fn delete_event(app: &mut App) -> (store: Option<Store>)
    requires
        old(app).events@.len() + 3 <= usize::MAX,
        forall|today: Date| window_fits(today) ==> #[trigger] deletion_in_list(*old(app), today),
    ensures
        exists|today: Date| #[trigger] valid_date(today) && (if window_fits(today) {
            &&& events_deleted(*old(app), *final(app), today)
            &&& store == (if selected_global(*old(app), today) is Some { Some(Store::Agenda) } else { None })
        } else {
            store is None && *final(app) == (App { pending_command: None, ..*old(app) })
        }),
{
    let today = crate::dates::current_date();
    if has_days_after(today, 30) {
        let store = delete_event_on(app, today);
        store
    } else {
        app.pending_command = None;
        None
    }
}

/// What the event popup's fields give, from the trimmed name, the date
/// read from its field, whether the time field is the empty `--:--`, and
/// the time read from it: the event's parts, or the message that refuses
/// them.
pub open spec fn event_parts(name: Seq<char>, date: Option<Date>, no_time: bool, time: Option<u32>) -> Result<(Seq<char>, Date, Option<u32>), Seq<char>> {
    if name.len() == 0 {
        Err("Event name cannot be empty."@)
    } else {
        match date {
            None => Err("Invalid date."@),
            Some(d) => if no_time {
                Ok((name, d, None))
            } else {
                match time {
                    None => Err("Invalid time."@),
                    Some(t) => Ok((name, d, Some(t))),
                }
            },
        }
    }
}

/// What the event popup's fields give: the trimmed name, the date read as
/// `DD-MM-YY` and the time read as `HH:MM` (none for `--:--`), or the
/// message that refuses them.
pub open spec fn event_fields(name: Seq<char>, date: Seq<char>, time: Seq<char>) -> Result<(Seq<char>, Date, Option<u32>), Seq<char>> {
    event_parts(trimmed(name), parsed_dmy(date), time == "--:--"@, parsed_hm(time))
}

/// Checks the parts read from the event popup: a name is needed, then a
/// date, then a time unless the time field is empty.
pub fn check_event_parts(name: String, date: Option<Date>, no_time: bool, time: Option<u32>) -> (r: Result<(String, Date, Option<u32>), String>)
    ensures
        match r {
            Ok((n, d, t)) => event_parts(name@, date, no_time, time) == Ok::<(Seq<char>, Date, Option<u32>), Seq<char>>((n@, d, t)),
            Err(m) => event_parts(name@, date, no_time, time) == Err::<(Seq<char>, Date, Option<u32>), Seq<char>>(m@),
        },
{
    if name.as_str().unicode_len() == 0 {
        return Err(String::from_str("Event name cannot be empty."));
    }
    let d = match date {
        Some(d) => d,
        None => return Err(String::from_str("Invalid date.")),
    };
    if no_time {
        return Ok((name, d, None));
    }
    match time {
        Some(t) => Ok((name, d, Some(t))),
        None => Err(String::from_str("Invalid time.")),
    }
}

/// Reads the event popup's fields.
fn read_event_fields(app: &App) -> (r: Result<(String, Date, Option<u32>), String>)
    ensures
        match r {
            Ok((n, d, t)) => event_fields(app.event_name.text@, app.event_date.value@, app.event_time.value@) == Ok::<(Seq<char>, Date, Option<u32>), Seq<char>>((n@, d, t)),
            Err(m) => event_fields(app.event_name.text@, app.event_date.value@, app.event_time.value@) == Err::<(Seq<char>, Date, Option<u32>), Seq<char>>(m@),
        },
{
    let name = String::from_str(trim(app.event_name.text.as_str()));
    let date = parse_dmy(app.event_date.value.as_str());
    let no_time = app.event_time.value == String::from_str("--:--");
    let time = parse_hm(app.event_time.value.as_str());
    check_event_parts(name, date, no_time, time)
}

/// Whether the popup open is the one to add or to edit an event.
pub open spec fn editing_event(p: Popup) -> bool {
    p == Popup::Agenda(AgendaPopup::AddEvent) || p == Popup::Agenda(AgendaPopup::EditEvent)
}

/// The events with `e` added, when adding, or put in place of the event at
/// the selected index, when editing (if there is an event there).
pub open spec fn placed_events(events: Seq<AgendaEvent>, adding: bool, selected: Option<usize>, e: AgendaEvent) -> Seq<AgendaEvent> {
    if adding {
        events.push(e)
    } else {
        match selected {
            Some(i) => if (i as int) < events.len() { events.update(i as int, e) } else { events },
            None => events,
        }
    }
}

/// Whether event `e` has this name and date.
pub open spec fn named_on(e: AgendaEvent, name: Seq<char>, date: Date) -> bool {
    e.name@ == name && e.date == date
}

/// The first event with this name and date, if any.
pub open spec fn first_named(events: Seq<AgendaEvent>, name: Seq<char>, date: Date) -> Option<int> {
    if exists|i: int| 0 <= i < events.len() && named_on(events[i], name, date) {
        Some(choose|i: int| 0 <= i < events.len() && named_on(events[i], name, date)
            && forall|j: int| 0 <= j < i ==> !named_on(events[j], name, date))
    } else {
        None
    }
}

proof fn lemma_first_named_is(events: Seq<AgendaEvent>, name: Seq<char>, date: Date, i: int)
    requires
        0 <= i < events.len(),
        named_on(events[i], name, date),
        forall|j: int| 0 <= j < i ==> !named_on(events[j], name, date),
    ensures
        first_named(events, name, date) == Some(i),
{
    let c = choose|c: int| 0 <= c < events.len() && named_on(events[c], name, date)
        && forall|j: int| 0 <= j < c ==> !named_on(events[j], name, date);
    assert(c == i) by {
        if c < i {
        } else if c > i {
            assert(!named_on(events[i], name, date));
        }
    }
}

/// The selection after saving: the first event with the saved name and
/// date, or the selection as it was.
pub open spec fn selection_after_save(events: Seq<AgendaEvent>, state: SelectionState, name: Seq<char>, date: Date) -> SelectionState {
    match first_named(events, name, date) {
        Some(i) => SelectionState { selected: Some(i as usize), ..state },
        None => state,
    }
}

/// Adds or replaces the event, sorts the events and selects the first one
/// with the saved name and date.
fn store_event(events: &mut Vec<AgendaEvent>, state: &mut SelectionState, event: AgendaEvent, adding: bool, name: &String, date: Date)
    requires
        event.name@ == name@,
        event.date == date,
    ensures
        final(events)@ == sorted_events(placed_events(old(events)@, adding, old(state).selected, event)),
        *final(state) == selection_after_save(final(events)@, *old(state), name@, date),
{
    let ghost e = event;
    if adding {
        events.push(event);
    } else if let Some(index) = state.selected() {
        if index < events.len() {
            events.set(index, event);
        }
    }
    sort_events(events);
    if let Some(k) = find_named(events, name, date) {
        state.select(Some(k));
    }
}

/// The index of the first event with this name and date.
fn find_named(events: &Vec<AgendaEvent>, name: &String, date: Date) -> (r: Option<usize>)
    ensures
        r == (match first_named(events@, name@, date) { Some(i) => Some(i as usize), None => None }),
{
    let mut k: usize = 0;
    while k < events.len()
        invariant
            k <= events@.len(),
            forall|j: int| 0 <= j < k ==> !named_on(events@[j], name@, date),
        decreases events@.len() - k,
    {
        if events[k].name == *name && events[k].date == date {
            proof { lemma_first_named_is(events@, name@, date, k as int); }
            return Some(k);
        }
        k = k + 1;
    }
    None
}

/// The popup's event `e` was saved: placed, the events sorted, the first
/// event with its name and date selected, and the popup closed.
pub open spec fn event_saved(o: App, f: App, e: AgendaEvent) -> bool {
    let adding = o.popup == Popup::Agenda(AgendaPopup::AddEvent);
    &&& f.events@ == sorted_events(placed_events(o.events@, adding, o.agenda_table_state.selected, e))
    &&& f.agenda_table_state == selection_after_save(f.events@, o.agenda_table_state, e.name@, e.date)
    &&& f == (App { events: f.events, agenda_table_state: f.agenda_table_state, popup: Popup::Closed, ..o })
}

/// What saving the event popup at `now` did: a refused field shows its
/// message for a second and keeps the popup open; an accepted event is
/// saved; any other popup just closes.
pub open spec fn event_popup_saved(o: App, f: App, now: u64, store: Option<Store>) -> bool {
    if !editing_event(o.popup) {
        store == Some(Store::Agenda) && f == (App { popup: Popup::Closed, ..o })
    } else {
        match event_fields(o.event_name.text@, o.event_date.value@, o.event_time.value@) {
            Err(msg) => {
                &&& store is None
                &&& f.status_message matches Some(m) && m@ == msg
                &&& f == (App {
                    status_message: f.status_message,
                    status_message_until: Some(sat_add(now as int, 1000) as u64),
                    ..o
                })
            },
            Ok((n, d, t)) => {
                &&& store == Some(Store::Agenda)
                &&& exists|e: AgendaEvent| e.name@ == n && e.date == d && e.time == t && e.repeat == o.event_repeat
                    && #[trigger] event_saved(o, f, e)
            },
        }
    }
}

/// Saves the event popup at `now`: checks the name, date and time, adds the
/// event or puts it in place of the selected one, sorts the events by date
/// and time and selects the saved event.
#[verifier::rlimit(40)]
pub fn save_event_at(app: &mut App, now: u64) -> (store: Option<Store>)
    ensures
        event_popup_saved(*old(app), *final(app), now, store),
{
    if app.popup == Popup::Agenda(AgendaPopup::AddEvent) || app.popup == Popup::Agenda(AgendaPopup::EditEvent) {
        match read_event_fields(app) {
            Err(message) => {
                app.set_status_message_at(message, now);
                return None;
            },
            Ok((name, date, time)) => {
                let adding = app.popup == Popup::Agenda(AgendaPopup::AddEvent);
                let event = AgendaEvent { name: name.clone(), date, time, repeat: app.event_repeat };
                let ghost e = event;
                let ghost o = *app;
                store_event(&mut app.events, &mut app.agenda_table_state, event, adding, &name, date);
                app.popup = Popup::Closed;
                assert(event_saved(o, *app, e));
            },
        }
    } else {
        app.popup = Popup::Closed;
    }
    Some(Store::Agenda)
}

/// Saves the event popup.
pub fn save_event(app: &mut App) -> (store: Option<Store>)
    ensures
        exists|now: u64| #[trigger] event_popup_saved(*old(app), *final(app), now, store),
{
    let now = crate::clock::now_millis();
    save_event_at(app, now)
}

/// The events as they stand after the clean-up of a new day: those kept
/// (repeating or not yet over), in order, each repeating one moved to its
/// next occurrence.
pub open spec fn refreshed_events(o: Seq<AgendaEvent>, f: Seq<AgendaEvent>, today: Date) -> bool {
    events_rolled(kept_events(o, today), f, today)
}

proof fn lemma_kept_valid(events: Seq<AgendaEvent>, today: Date)
    requires
        all_valid(events),
    ensures
        all_valid(kept_events(events, today)),
{
    broadcast use Seq::lemma_filter_contains_rev;
    let kept = kept_events(events, today);
    assert forall|i: int| 0 <= i < kept.len() implies valid_date(#[trigger] kept[i].date) by {
        assert(kept.contains(kept[i]));
        assert(events.contains(kept[i]));
    }
}

proof fn lemma_kept_roll(events: Seq<AgendaEvent>, today: Date)
    requires
        rolls_in_calendar(events, today),
    ensures
        rolls_in_calendar(kept_events(events, today), today),
{
    broadcast use Seq::lemma_filter_contains_rev;
    let kept = kept_events(events, today);
    assert forall|i: int| 0 <= i < kept.len() && (#[trigger] kept[i]).repeat implies date_le(today, rolled_forward(kept[i].date, today)) by {
        assert(kept.contains(kept[i]));
        assert(events.contains(kept[i]));
        let j = choose|j: int| 0 <= j < events.len() && events[j] == kept[i];
        assert(events[j].repeat);
    }
}

/// What the clean-up on `today` did: on the day the agenda was last
/// updated, nothing; on another day, the events are those refreshed, none
/// of them before `today`, the day is recorded and the agenda is to be
/// stored.
pub open spec fn agenda_refreshed(o: App, f: App, today: Date, store: Option<Store>) -> bool {
    if today == o.last_agenda_update {
        store is None && f == o
    } else {
        &&& store == Some(Store::Agenda)
        &&& refreshed_events(o.events@, f.events@, today)
        &&& forall|i: int| 0 <= i < f.events@.len() ==> date_le(today, #[trigger] f.events@[i].date)
        &&& f == (App { events: f.events, last_agenda_update: today, ..o })
    }
}

/// The clean-up when `today` is not the day the agenda was last updated:
/// events that are over are dropped, repeating events move to their next
/// occurrence, and the day is recorded; the agenda is then to be stored.
/// Afterwards no event lies before `today`. On the same day nothing
/// changes.
pub fn refresh_agenda_on(app: &mut App, today: Date) -> (store: Option<Store>)
    requires
        all_valid(old(app).events@),
        rolls_in_calendar(old(app).events@, today),
    ensures
        agenda_refreshed(*old(app), *final(app), today, store),
{
    if today == app.last_agenda_update {
        return None;
    }
    let ghost o = app.events@;
    remove_expired_events_on(&mut app.events, today);
    proof { lemma_kept_valid(o, today); }
    proof { lemma_kept_roll(o, today); }
    update_repeating_events_on(&mut app.events, today);
    proof {
        let kept = kept_events(o, today);
        assert forall|i: int| 0 <= i < app.events@.len() implies date_le(today, #[trigger] app.events@[i].date) by {
            assert(kept.contains(kept[i]));
            assert(kept_on(kept[i], today));
        }
    }
    app.last_agenda_update = today;
    Some(Store::Agenda)
}

/// The clean-up of a new day, on today's date.
pub fn refresh_agenda(app: &mut App) -> (store: Option<Store>)
    requires
        all_valid(old(app).events@),
    ensures
        exists|today: Date| #[trigger] valid_date(today) && (if rolls_in_calendar(old(app).events@, today) {
            agenda_refreshed(*old(app), *final(app), today, store)
        } else {
            store is None && *final(app) == *old(app)
        }),
{
    let today = crate::dates::current_date();
    if events_roll_in_calendar(app.events.as_slice(), today) {
        refresh_agenda_on(app, today)
    } else {
        None
    }
}

/// The clean-up runs once a day: right after it, running it again on the
/// same day changes nothing and stores nothing.
pub proof fn lemma_refresh_once_a_day(o: App, f1: App, f2: App, today: Date, s1: Option<Store>, s2: Option<Store>)
    requires
        agenda_refreshed(o, f1, today, s1),
        agenda_refreshed(f1, f2, today, s2),
    ensures
        f2 == f1,
        s2 is None,
{
}

/// After an event is saved, the events are in the agenda's order (by date,
/// then time, timed events first), and they are the events as they were
/// with the saved one added, or put in place of the edited one.
pub proof fn lemma_saved_events_sorted(o: App, f: App, now: u64, store: Option<Store>)
    requires
        event_popup_saved(o, f, now, store),
        editing_event(o.popup),
        event_fields(o.event_name.text@, o.event_date.value@, o.event_time.value@) is Ok,
    ensures
        is_sorted_events(f.events@),
        exists|e: AgendaEvent| #[trigger] event_saved(o, f, e) && f.events@.to_multiset()
            == placed_events(o.events@, o.popup == Popup::Agenda(AgendaPopup::AddEvent), o.agenda_table_state.selected, e).to_multiset(),
{
    let (n, d, t) = event_fields(o.event_name.text@, o.event_date.value@, o.event_time.value@)->Ok_0;
    let e = choose|e: AgendaEvent| e.name@ == n && e.date == d && e.time == t && e.repeat == o.event_repeat
        && #[trigger] event_saved(o, f, e);
    let placed = placed_events(o.events@, o.popup == Popup::Agenda(AgendaPopup::AddEvent), o.agenda_table_state.selected, e);
    lemma_sorted_events_sorted(placed);
}

/// Every event that the agenda's search finds lies in the window and has a
/// name that contains the trimmed, lowered query.
pub proof fn lemma_matches_in_window(events: Seq<AgendaEvent>, query: Seq<char>, today: Date)
    ensures
        forall|k: int| 0 <= k < matches_for(events, query, today).len() ==> {
            &&& window_rows(events, today, window_end(today)).contains(#[trigger] matches_for(events, query, today)[k])
            &&& (matches_for(events, query, today)[k] as int) < events.len()
            &&& name_matches(events[matches_for(events, query, today)[k] as int], normalized_query(query))
        },
{
    broadcast use vstd::seq_lib::group_filter_ensures;
    broadcast use Seq::lemma_filter_contains_rev;
    let m = matches_for(events, query, today);
    let q = normalized_query(query);
    if q.len() > 0 {
        let rows = window_rows(events, today, window_end(today));
        assert forall|k: int| 0 <= k < m.len() implies rows.contains(#[trigger] m[k]) by {
            assert(m.contains(m[k]));
        }
    }
}

} // verus!
