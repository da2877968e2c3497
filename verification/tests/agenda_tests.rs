use duetime::agenda::{
    agenda_sections, format_countdown_from, format_i64, is_header_or_spacer, remove_expired_events_on, row_of_event,
    selected_event, snap_agenda_selection, sort_events, update_repeating_events_on, visible_indices, AgendaEvent,
    AgendaEventData,
};
use duetime::dates::Date;
use duetime::keys::{Key, KeyCode};
use duetime::selection::SelectionState;

fn d(year: i32, month: u32, day: u32) -> Date {
    Date { year, month, day }
}

fn ev(name: &str, date: Date, time: Option<u32>, repeat: bool) -> AgendaEvent {
    AgendaEvent { name: name.to_string(), date, time, repeat }
}

#[test]
fn countdown_texts() {
    assert_eq!(format_i64(-12), "-12");
    assert_eq!(format_i64(i64::MIN), "-9223372036854775808");
    assert_eq!(format_countdown_from(d(2024, 5, 2), d(2024, 5, 1)), "1 day");
    assert_eq!(format_countdown_from(d(2024, 5, 11), d(2024, 5, 1)), "10 days");
    assert_eq!(format_countdown_from(d(2024, 5, 1), d(2024, 5, 1)), "0 days");
    assert_eq!(format_countdown_from(d(2024, 4, 30), d(2024, 5, 1)), "-1 days");
}

#[test]
fn repeating_events_roll_forward() {
    let mut events = vec![
        ev("Birthday", d(2020, 2, 29), None, true),
        ev("Dentist", d(2020, 1, 1), None, false),
        ev("Anniversary", d(2023, 12, 1), Some(3600), true),
        ev("Later", d(2024, 6, 1), None, true),
    ];
    update_repeating_events_on(&mut events, d(2023, 3, 10));
    assert_eq!(events[0].date, d(2024, 2, 28));
    assert_eq!(events[1].date, d(2020, 1, 1));
    assert_eq!(events[2].date, d(2023, 12, 1));
    assert_eq!(events[3].date, d(2024, 6, 1));
    assert_eq!(events[2].time, Some(3600));
    assert_eq!(events[0].name, "Birthday");
}

#[test]
fn repeating_event_lands_on_today() {
    let mut events = vec![ev("Yearly", d(2021, 3, 10), None, true)];
    update_repeating_events_on(&mut events, d(2023, 3, 10));
    assert_eq!(events[0].date, d(2023, 3, 10));
}

#[test]
fn expired_events_are_dropped() {
    let today = d(2024, 5, 10);
    let mut events = vec![
        ev("past", d(2024, 5, 9), None, false),
        ev("today", d(2024, 5, 10), None, false),
        ev("past yearly", d(2023, 1, 1), None, true),
        ev("future", d(2025, 1, 1), None, false),
    ];
    remove_expired_events_on(&mut events, today);
    let names: Vec<&str> = events.iter().map(|e| e.name.as_str()).collect();
    assert_eq!(names, vec!["today", "past yearly", "future"]);
}

fn sample() -> Vec<AgendaEvent> {
    vec![
        ev("a", d(2024, 5, 10), None, false),
        ev("b", d(2024, 5, 12), None, false),
        ev("c", d(2024, 5, 10), Some(60), false),
        ev("d", d(2024, 7, 1), None, false),
        ev("e", d(2024, 6, 9), None, false),
        ev("f", d(2024, 5, 9), None, false),
    ]
}

#[test]
fn sections_of_the_panel() {
    let events = sample();
    let today = d(2024, 5, 10);
    let (t, u) = agenda_sections(&events, today);
    assert_eq!(t, vec![0, 2]);
    assert_eq!(u, vec![1, 4]);
    assert_eq!(visible_indices(&events, today), vec![0, 1, 2, 4]);
}

#[test]
fn rows_and_events() {
    let t = vec![0, 2];
    let u = vec![1, 4];
    assert_eq!(selected_event(Some(0), &t, &u), None);
    assert_eq!(selected_event(Some(1), &t, &u), Some(0));
    assert_eq!(selected_event(Some(2), &t, &u), Some(2));
    assert_eq!(selected_event(Some(3), &t, &u), None);
    assert_eq!(selected_event(Some(4), &t, &u), None);
    assert_eq!(selected_event(Some(5), &t, &u), Some(1));
    assert_eq!(selected_event(Some(6), &t, &u), Some(4));
    assert_eq!(selected_event(Some(7), &t, &u), None);
    assert_eq!(selected_event(None, &t, &u), None);
    assert_eq!(row_of_event(2, &t, &u), Some(2));
    assert_eq!(row_of_event(4, &t, &u), Some(6));
    assert_eq!(row_of_event(3, &t, &u), None);
}

#[test]
fn row_of_an_event_shows_that_event() {
    let t = vec![3, 5, 8];
    let u = vec![1, 9];
    for e in [3usize, 5, 8, 1, 9] {
        let row = row_of_event(e, &t, &u).unwrap();
        assert_eq!(selected_event(Some(row), &t, &u), Some(e));
    }
}

#[test]
fn header_rows() {
    let mut state = SelectionState { selected: Some(4), offset: 7 };
    assert!(is_header_or_spacer(0, 2, &mut state));
    assert_eq!(state.offset, 0);
    assert!(is_header_or_spacer(3, 2, &mut state));
    assert_eq!(state.selected, Some(4));
    assert!(is_header_or_spacer(4, 2, &mut state));
    assert_eq!(state.selected, Some(5));
    assert!(!is_header_or_spacer(1, 2, &mut state));
}

#[test]
fn snapping_off_headers() {
    // two events today (rows 1, 2), spacer 3, header 4, upcoming rows 5, 6
    let mut state = SelectionState { selected: Some(3), offset: 2 };
    snap_agenda_selection(&mut state, 7, 2, Key::plain(KeyCode::Char('j')));
    assert_eq!(state.selected, Some(5));
    let mut up = SelectionState { selected: Some(3), offset: 2 };
    snap_agenda_selection(&mut up, 7, 2, Key::plain(KeyCode::Char('k')));
    assert_eq!(up.selected, Some(2));
    let mut top = SelectionState { selected: Some(0), offset: 2 };
    snap_agenda_selection(&mut top, 7, 2, Key::plain(KeyCode::Char('k')));
    assert_eq!(top.selected, Some(1));
    assert_eq!(top.offset, 0);
    let mut empty = SelectionState { selected: Some(0), offset: 2 };
    snap_agenda_selection(&mut empty, 3, 0, Key::plain(KeyCode::Char('j')));
    assert_eq!(empty.selected, None);
    let mut on_event = SelectionState { selected: Some(6), offset: 2 };
    snap_agenda_selection(&mut on_event, 7, 2, Key::plain(KeyCode::Char('j')));
    assert_eq!(on_event, SelectionState { selected: Some(6), offset: 2 });
}

#[test]
fn sorting_by_date_then_time() {
    let mut events = vec![
        ev("late", d(2024, 5, 11), None, false),
        ev("untimed", d(2024, 5, 10), None, false),
        ev("noon", d(2024, 5, 10), Some(12 * 3600), false),
        ev("morning", d(2024, 5, 10), Some(8 * 3600), false),
        ev("untimed too", d(2024, 5, 10), None, false),
        ev("early", d(2023, 1, 1), None, false),
    ];
    sort_events(&mut events);
    let names: Vec<&str> = events.iter().map(|e| e.name.as_str()).collect();
    assert_eq!(names, vec!["early", "morning", "noon", "untimed", "untimed too", "late"]);
}

#[test]
fn event_data_round_trip() {
    let e = ev("x", d(2024, 1, 2), Some(5), true);
    let data = e.to_data();
    assert_eq!(data, AgendaEventData { name: "x".to_string(), date: d(2024, 1, 2), time: Some(5), repeat: true });
    let back = AgendaEvent::from_data(data);
    assert_eq!(back.name, "x");
    assert_eq!(back.date, d(2024, 1, 2));
}

#[test]
fn countdown_labels() {
    assert_eq!(duetime::agenda::countdown_label(1), "1 day");
    assert_eq!(duetime::agenda::countdown_label(2), "2 days");
    assert_eq!(duetime::agenda::countdown_label(0), "0 days");
    assert_eq!(duetime::agenda::countdown_label(-3), "-3 days");
}

#[test]
fn sections_and_window_up_to_a_day() {
    let events = sample();
    let (t, u) = duetime::agenda::sections_until(&events, d(2024, 5, 10), d(2024, 5, 12));
    assert_eq!(t, vec![0, 2]);
    assert_eq!(u, vec![1]);
    assert_eq!(duetime::agenda::window_until(&events, d(2024, 5, 9), d(2024, 5, 10)), vec![0, 2, 5]);
}
