use duetime::clock::Moment;
use duetime::agenda::{AgendaEvent, DateTimeInput};
use duetime::agenda_actions::{
    check_event_parts, add_event_on, delete_event_on, edit_event_on, get_selected_global_index_on, refresh_agenda_on, save_event_at,
    search_agenda_on, select_agenda_event_on,
};
use duetime::app::{App, CopyOutcome, Store};
use duetime::selection::Selectable;
use duetime::dates::{is_not_after, Date};
use duetime::inbox::InboxItemInfo;
use duetime::models::{KnownTask, Preset, TaskTemplate};
use duetime::tasks::TaskInfo;
use duetime::text_input::InputState;
use duetime::timer_actions::{save_timer_at, start_stop_at as timer_start_stop_at};
use duetime::timers::{DurationInput, TimerInfo, TimerInfoData};
use duetime::move_items::{MoveState, MoveTarget};
use duetime::task_rows::{row_highlight, table_rows, RowHighlight, TaskRow};
use duetime::types::{AgendaPopup, NavigationMode, Panel, Popup, Priority, TaskDestination, TasksTablePopup, TimersPopup};

fn at(ms: u64) -> Moment {
    Moment { unix_ms: ms, tick: ms as u128 }
}


fn d(year: i32, month: u32, day: u32) -> Date {
    Date { year, month, day }
}

fn ev(name: &str, date: Date, time: Option<u32>, repeat: bool) -> AgendaEvent {
    AgendaEvent { name: name.to_string(), date, time, repeat }
}

fn empty_app() -> App {
    App::new(Vec::new(), Vec::new(), Vec::new(), Vec::new(), Vec::new(), Vec::new(), d(2024, 5, 10))
}

fn task(name: &str) -> TaskInfo {
    let mut t = TaskInfo::default();
    t.name = name.to_string();
    t.status = "PENDING".to_string();
    t
}

#[test]
fn new_app_starts_on_the_task_table() {
    let app = empty_app();
    assert!(app.running);
    assert_eq!(app.popup, Popup::Closed);
    assert_eq!(app.focused_panel, Panel::TasksTable);
    assert_eq!(app.tasks_table_state.selected(), Some(0));
    assert_eq!(app.event_date.value, "00-00-24");
    assert_eq!(app.event_time.value, "00:00");
    assert_eq!(app.next_id, 1);
}

#[test]
fn adding_a_task_puts_it_after_the_selection() {
    let mut app = App::new(vec![task("one"), task("two")], Vec::new(), Vec::new(), Vec::new(), Vec::new(), Vec::new(), d(2024, 5, 10));
    app.tasks_table_state.select(Some(0));
    app.task_add(TaskDestination::AddTask);
    assert_eq!(app.popup, Popup::TasksTable(TasksTablePopup::AddTask));
    app.task_name = InputState::with_text("middle".to_string());
    app.planned_start = InputState::with_text("09:00".to_string());
    assert_eq!(app.save_task(), Store::Tasks);
    let names: Vec<&str> = app.tasks.iter().map(|t| t.name.as_str()).collect();
    assert_eq!(names, vec!["one", "middle", "two"]);
    assert_eq!(app.tasks[1].status, "PENDING");
    assert_eq!(app.tasks[1].planned_start, "09:00");
    assert_eq!(app.tasks_table_state.selected(), Some(1));
    assert_eq!(app.task_name.text, "");
}

#[test]
fn status_message_lasts_a_second() {
    let mut app = empty_app();
    app.set_status_message_at("hello".to_string(), 5_000);
    assert_eq!(app.status_message, Some("hello".to_string()));
    assert_eq!(app.status_message_until, Some(6_000));
    app.set_status_message_at("late".to_string(), u64::MAX - 10);
    assert_eq!(app.status_message_until, Some(u64::MAX));
}

#[test]
fn copy_reports() {
    let mut app = App::new(Vec::new(), vec![InboxItemInfo { input: "note".to_string(), priority: Priority::High }], Vec::new(), Vec::new(), Vec::new(), Vec::new(), d(2024, 5, 10));
    assert_eq!(app.copy_inbox_input(), Some("note".to_string()));
    app.report_copy_at(CopyOutcome::Copied, 0);
    assert_eq!(app.status_message, Some("Copied to clipboard".to_string()));
    app.report_copy_at(CopyOutcome::Failed("no display".to_string()), 0);
    assert_eq!(app.status_message, Some("Copy failed: no display".to_string()));
    app.report_copy_at(CopyOutcome::Unavailable, 0);
    assert_eq!(app.status_message, Some("Clipboard unavailable".to_string()));
    app.report_copy_at(CopyOutcome::Unverified, 0);
    assert_eq!(app.status_message, Some("Copied, but clipboard could not be verified".to_string()));
    app.inbox_tasks_table_state.select(None);
    assert_eq!(app.copy_inbox_input(), None);
}

#[test]
fn priorities_rank_high_first() {
    assert_eq!(App::priority_rank(Priority::High), 0);
    assert_eq!(App::priority_rank(Priority::Medium), 1);
    assert_eq!(App::priority_rank(Priority::Low), 2);
    assert_eq!(Priority::Medium.as_str(), "MEDIUM");
}

#[test]
fn applying_a_preset_loads_its_tasks() {
    let template = TaskTemplate { id: 3, name: "standup".to_string(), planned_start: Some("09:00".to_string()), planned_end: None };
    let preset = Preset { id: 1, name: "morning".to_string(), tasks: vec![template] };
    let mut app = App::new(vec![task("old")], Vec::new(), Vec::new(), vec![preset], Vec::new(), Vec::new(), d(2024, 5, 10));
    app.apply_preset();
    assert_eq!(app.tasks.len(), 1);
    assert_eq!(app.tasks[0].name, "standup");
    assert_eq!(app.tasks[0].planned_start, "09:00");
    assert_eq!(app.tasks[0].planned_end, "");
    assert_eq!(app.tasks[0].status, "PENDING");
}

#[test]
fn known_tasks_are_added_and_deleted() {
    let mut app = App::new(Vec::new(), Vec::new(), Vec::new(), Vec::new(), vec![KnownTask { id: 1, name: "Email".to_string() }], Vec::new(), d(2024, 5, 10));
    app.delete_known_task();
    assert!(app.known_tasks.is_empty());
}

// ---------------------------------------------------------------- agenda

fn agenda_app(events: Vec<AgendaEvent>) -> App {
    App::new(Vec::new(), Vec::new(), events, Vec::new(), Vec::new(), Vec::new(), d(2024, 5, 10))
}

#[test]
fn add_event_prefills_today() {
    let mut app = agenda_app(Vec::new());
    add_event_on(&mut app, d(2024, 5, 10));
    assert_eq!(app.popup, Popup::Agenda(AgendaPopup::AddEvent));
    assert_eq!(app.event_date.value, "10-05-24");
    assert_eq!(app.event_time.value, "--:--");
    assert_eq!(app.event_name.text, "");
    assert!(!app.event_repeat);
}

fn fill(app: &mut App, name: &str, date: &str, time: &str) {
    app.event_name = InputState::with_text(name.to_string());
    app.event_date = DateTimeInput { value: date.to_string(), cursor: 0, editable_positions: vec![0, 1, 3, 4, 6, 7] };
    app.event_time = DateTimeInput { value: time.to_string(), cursor: 0, editable_positions: vec![0, 1, 3, 4] };
}

#[test]
fn save_event_refuses_bad_fields() {
    let mut app = agenda_app(Vec::new());
    add_event_on(&mut app, d(2024, 5, 10));
    fill(&mut app, "   ", "10-05-24", "--:--");
    assert_eq!(save_event_at(&mut app, 100), None);
    assert_eq!(app.status_message, Some("Event name cannot be empty.".to_string()));
    assert_eq!(app.popup, Popup::Agenda(AgendaPopup::AddEvent));
    fill(&mut app, "Lunch", "32-05-24", "--:--");
    assert_eq!(save_event_at(&mut app, 100), None);
    assert_eq!(app.status_message, Some("Invalid date.".to_string()));
    fill(&mut app, "Lunch", "10-05-24", "25:00");
    assert_eq!(save_event_at(&mut app, 100), None);
    assert_eq!(app.status_message, Some("Invalid time.".to_string()));
    assert!(app.events.is_empty());
}

#[test]
fn saved_events_are_sorted_and_selected() {
    let mut app = agenda_app(vec![ev("Later", d(2024, 6, 1), None, false), ev("Early", d(2024, 5, 1), None, false)]);
    add_event_on(&mut app, d(2024, 5, 10));
    fill(&mut app, "  Lunch ", "12-05-24", "12:30");
    assert_eq!(save_event_at(&mut app, 0), Some(Store::Agenda));
    let names: Vec<&str> = app.events.iter().map(|e| e.name.as_str()).collect();
    assert_eq!(names, vec!["Early", "Lunch", "Later"]);
    assert_eq!(app.events[1].time, Some(12 * 3600 + 30 * 60));
    assert_eq!(app.agenda_table_state.selected(), Some(1));
    assert_eq!(app.popup, Popup::Closed);
}

#[test]
fn editing_an_event_replaces_it() {
    let today = d(2024, 5, 10);
    let mut app = agenda_app(vec![ev("Gym", d(2024, 5, 10), Some(7 * 3600), true), ev("Call", d(2024, 5, 20), None, false)]);
    app.agenda_table_state.select(Some(1));
    assert_eq!(get_selected_global_index_on(&app, today), Some(0));
    edit_event_on(&mut app, today);
    assert_eq!(app.popup, Popup::Agenda(AgendaPopup::EditEvent));
    assert_eq!(app.event_name.text, "Gym");
    assert_eq!(app.event_date.value, "10-05-24");
    assert_eq!(app.event_time.value, "07:00");
    assert!(app.event_repeat);
    app.event_name = InputState::with_text("Swim".to_string());
    app.agenda_table_state.select(Some(0));
    assert_eq!(save_event_at(&mut app, 0), Some(Store::Agenda));
    assert_eq!(app.events.len(), 2);
    assert_eq!(app.events[0].name, "Swim");
}

#[test]
fn searching_the_agenda_selects_the_first_match() {
    let today = d(2024, 5, 10);
    let mut app = agenda_app(vec![
        ev("Team lunch", d(2024, 5, 10), None, false),
        ev("Dentist", d(2024, 5, 12), None, false),
        ev("Lunch with Ana", d(2024, 5, 15), None, false),
        ev("Lunch far away", d(2024, 9, 1), None, false),
    ]);
    app.agenda_search.query = " LUNCH".to_string();
    search_agenda_on(&mut app, today);
    assert_eq!(app.agenda_search.matches, vec![0, 2]);
    assert_eq!(app.agenda_search.current_match, 0);
    assert_eq!(app.agenda_table_state.selected(), Some(1));
    select_agenda_event_on(&mut app, 2, today);
    assert_eq!(app.agenda_table_state.selected(), Some(5));
    app.agenda_search.query = "   ".to_string();
    search_agenda_on(&mut app, today);
    assert!(app.agenda_search.matches.is_empty());
}

#[test]
fn deleting_an_event_selects_its_successor() {
    let today = d(2024, 5, 10);
    let mut app = agenda_app(vec![
        ev("a", d(2024, 5, 10), None, false),
        ev("b", d(2024, 5, 11), None, false),
        ev("c", d(2024, 5, 12), None, false),
    ]);
    app.agenda_table_state.select(Some(4));
    app.pending_command = Some('d');
    assert_eq!(delete_event_on(&mut app, today), Some(Store::Agenda));
    let names: Vec<&str> = app.events.iter().map(|e| e.name.as_str()).collect();
    assert_eq!(names, vec!["a", "c"]);
    assert_eq!(app.agenda_table_state.selected(), Some(4));
    assert_eq!(app.pending_command, None);
    app.agenda_table_state.select(Some(1));
    delete_event_on(&mut app, today);
    app.agenda_table_state.select(Some(3));
    delete_event_on(&mut app, today);
    assert_eq!(app.events.len(), 0);
    assert_eq!(app.agenda_table_state.selected(), None);
}

#[test]
fn nothing_selected_deletes_nothing() {
    let today = d(2024, 5, 10);
    let mut app = agenda_app(vec![ev("a", d(2024, 5, 10), None, false)]);
    app.agenda_table_state.select(Some(0));
    app.pending_command = Some('d');
    assert_eq!(delete_event_on(&mut app, today), None);
    assert_eq!(app.events.len(), 1);
    assert_eq!(app.pending_command, None);
}

#[test]
fn a_new_day_cleans_up_the_agenda() {
    let mut app = agenda_app(vec![
        ev("gone", d(2024, 5, 9), None, false),
        ev("birthday", d(2023, 5, 1), None, true),
        ev("soon", d(2024, 5, 20), None, false),
    ]);
    assert_eq!(refresh_agenda_on(&mut app, d(2024, 5, 10)), None);
    assert_eq!(app.events.len(), 3);
    assert_eq!(refresh_agenda_on(&mut app, d(2024, 5, 11)), Some(Store::Agenda));
    let names: Vec<&str> = app.events.iter().map(|e| e.name.as_str()).collect();
    assert_eq!(names, vec!["birthday", "soon"]);
    assert_eq!(app.events[0].date, d(2025, 5, 1));
    assert_eq!(app.last_agenda_update, d(2024, 5, 11));
    for e in &app.events {
        assert!(is_not_after(d(2024, 5, 11), e.date));
    }
}

// ---------------------------------------------------------------- timers

fn timer(name: &str, secs: u64) -> TimerInfo {
    TimerInfo::from_data(TimerInfoData { name: name.to_string(), duration: secs, status: "READY".to_string() })
}

#[test]
fn saving_a_timer() {
    let mut app = App::new(Vec::new(), Vec::new(), Vec::new(), Vec::new(), Vec::new(), vec![timer("Tea", 180)], d(2024, 5, 10));
    app.popup = Popup::Timers(TimersPopup::AddTimer);
    app.timer_name = InputState::with_text("  Pasta ".to_string());
    app.timer_duration = DurationInput { value: "00:09:30".to_string(), cursor: 0 };
    save_timer_at(&mut app, 0);
    assert_eq!(app.timers.len(), 2);
    assert_eq!(app.timers[1].name, "Pasta");
    assert_eq!(app.timers[1].duration, 570);
    assert_eq!(app.timers[1].status, "READY");
    assert_eq!(app.timers[1].countdown.remaining_at(0), 570_000);
    assert_eq!(app.timers_list_state.selected(), Some(1));
    assert_eq!(app.popup, Popup::Closed);
}

#[test]
fn a_bad_duration_is_reported() {
    let mut app = empty_app();
    app.popup = Popup::Timers(TimersPopup::AddTimer);
    app.timer_duration = DurationInput { value: "00:61:00".to_string(), cursor: 0 };
    save_timer_at(&mut app, 7);
    assert!(app.timers.is_empty());
    assert_eq!(app.status_message, Some("Invalid duration.".to_string()));
    assert_eq!(app.status_message_until, Some(1_007));
    assert_eq!(app.popup, Popup::Timers(TimersPopup::AddTimer));
}

#[test]
fn starting_and_pausing_a_timer() {
    let mut app = App::new(Vec::new(), Vec::new(), Vec::new(), Vec::new(), Vec::new(), vec![timer("Tea", 10)], d(2024, 5, 10));
    timer_start_stop_at(&mut app, at(1_000));
    assert!(app.timers[0].countdown.running());
    assert_eq!(app.timers[0].status, "");
    timer_start_stop_at(&mut app, at(4_000));
    assert!(!app.timers[0].countdown.running());
    assert_eq!(app.timers[0].status, "PAUSED");
    assert_eq!(app.timers[0].countdown.remaining_at(100_000), 7_000);
}

#[test]
fn visual_mode_is_normal_after_deleting() {
    let mut app = App::new(vec![task("a"), task("b"), task("c")], Vec::new(), Vec::new(), Vec::new(), Vec::new(), Vec::new(), d(2024, 5, 10));
    app.n_mode = NavigationMode::Visual;
    app.n_visual_start = Some(0);
    app.tasks_table_state.select(Some(1));
    assert_eq!(duetime::task_actions::delete_task(&mut app), Some(Store::Tasks));
    assert_eq!(app.tasks.len(), 1);
    assert_eq!(app.tasks[0].name, "c");
    assert_eq!(app.n_mode, NavigationMode::Normal);
    assert_eq!(app.tasks_table_state.selected(), Some(0));
}

#[test]
fn checking_event_parts() {
    let date = d(2024, 5, 10);
    assert_eq!(check_event_parts(String::new(), Some(date), true, None), Err("Event name cannot be empty.".to_string()));
    assert_eq!(check_event_parts("a".to_string(), None, true, None), Err("Invalid date.".to_string()));
    assert_eq!(check_event_parts("a".to_string(), Some(date), false, None), Err("Invalid time.".to_string()));
    assert_eq!(check_event_parts("a".to_string(), Some(date), true, Some(60)), Ok(("a".to_string(), date, None)));
    assert_eq!(check_event_parts("a".to_string(), Some(date), false, Some(60)), Ok(("a".to_string(), date, Some(60))));
}

fn template(id: u64, name: &str) -> TaskTemplate {
    TaskTemplate { id, name: name.to_string(), planned_start: Some("08:00".to_string()), planned_end: None }
}

#[test]
fn presets_are_created_edited_and_deleted() {
    let mut app = empty_app();
    app.create_preset();
    assert_eq!(app.popup, Popup::TasksTable(TasksTablePopup::NewPreset));
    app.preset_name = InputState::with_text("Morning".to_string());
    app.preset_tasks = vec![template(7, "coffee")];
    assert_eq!(app.save_preset(), Store::Presets);
    assert_eq!(app.presets.len(), 1);
    assert_eq!(app.presets[0].name, "Morning");
    assert_eq!(app.presets[0].id, 1);
    assert_eq!(app.presets[0].tasks[0].name, "coffee");
    assert_eq!(app.next_id, 2);
    assert_eq!(app.popup, Popup::TasksTable(TasksTablePopup::Presets));
    assert_eq!(app.preset_state.selected(), Some(0));

    app.edit_preset();
    assert_eq!(app.edit_preset, Some(0));
    assert_eq!(app.preset_name.text, "Morning");
    app.preset_name = InputState::with_text("Early".to_string());
    app.save_preset();
    assert_eq!(app.presets.len(), 1);
    assert_eq!(app.presets[0].name, "Early");
    assert_eq!(app.presets[0].id, 1);

    assert_eq!(app.delete_preset(), Some(Store::Presets));
    assert!(app.presets.is_empty());
    assert_eq!(app.preset_state.selected(), None);
    assert_eq!(app.delete_preset(), None);
}

#[test]
fn preset_tasks_are_edited_in_the_task_popup() {
    let mut app = empty_app();
    app.create_preset();
    app.task_destination = TaskDestination::Preset;
    app.task_name = InputState::with_text("stretch".to_string());
    app.planned_start = InputState::with_text("07:00".to_string());
    app.preset_task_state.select(None);
    app.save_task();
    assert_eq!(app.preset_tasks.len(), 1);
    assert_eq!(app.preset_tasks[0].name, "stretch");
    assert_eq!(app.preset_tasks[0].planned_start, Some("07:00".to_string()));
    assert_eq!(app.preset_tasks[0].planned_end, Some(String::new()));
    assert_eq!(app.preset_task_state.selected(), Some(0));
    app.edit_preset_task();
    assert_eq!(app.task_destination, TaskDestination::EditPresetTask(0));
    assert_eq!(app.task_name.text, "stretch");
    app.task_name = InputState::with_text("yoga".to_string());
    app.save_task();
    assert_eq!(app.preset_tasks[0].name, "yoga");
    assert_eq!(app.popup, Popup::TasksTable(TasksTablePopup::NewPreset));
}

#[test]
fn known_tasks_popups() {
    let mut app = App::new(Vec::new(), Vec::new(), Vec::new(), Vec::new(), vec![KnownTask { id: 1, name: "Email".to_string() }], Vec::new(), d(2024, 5, 10));
    app.add_known_task();
    assert_eq!(app.popup, Popup::TasksTable(TasksTablePopup::AddKnownTask));
    assert_eq!(app.known_task_name.text, "");
    app.edit_known_task();
    assert_eq!(app.popup, Popup::TasksTable(TasksTablePopup::EditKnownTask(0)));
    assert_eq!(app.known_task_name.text, "Email");
}

#[test]
fn editing_a_task() {
    let mut app = App::new(vec![task("one"), task("two")], Vec::new(), Vec::new(), Vec::new(), Vec::new(), Vec::new(), d(2024, 5, 10));
    app.tasks_table_state.select(Some(1));
    duetime::task_actions::edit_task(&mut app);
    assert_eq!(app.task_destination, TaskDestination::EditTask(1));
    assert_eq!(app.task_name.text, "two");
    assert_eq!(app.task_name.cursor, 3);
    app.task_name = InputState::with_text("deux".to_string());
    app.save_task();
    assert_eq!(app.tasks[1].name, "deux");
    assert_eq!(app.tasks.len(), 2);
    assert_eq!(app.popup, Popup::Closed);
}

#[test]
fn in_progress_tasks_stop_at_start_up() {
    let mut running = task("running");
    running.status = "IN PROGRESS".to_string();
    let mut app = App::new(vec![running, task("idle")], Vec::new(), Vec::new(), Vec::new(), Vec::new(), Vec::new(), d(2024, 5, 10));
    duetime::task_actions::stop_in_progress_tasks(&mut app);
    assert_eq!(app.tasks[0].status, "STOPPED");
    assert_eq!(app.tasks[1].status, "PENDING");
}

#[test]
fn new_app_starts_with_nothing_pending() {
    let app = empty_app();
    assert_eq!(app.pending_command, None);
    assert!(!app.move_state.is_moving());
    assert_eq!(app.move_state, MoveState::default());
    assert_eq!(app.status_message, None);
    assert_eq!(app.status_message_until, None);
    assert!(app.suggestions.is_empty());
    assert_eq!(app.selected_suggestion, 0);
    assert_eq!(app.task_destination, TaskDestination::AddTask);
    assert_eq!(app.edit_preset, None);
    assert!(app.preset_tasks.is_empty());
    assert_eq!(app.last_popup, Popup::Closed);
    assert_eq!(app.search_panel, None);
    assert_eq!(app.timer_duration.value, "00:00:00");
    assert_eq!(app.event_date.editable_positions, vec![0, 1, 3, 4, 6, 7]);
    assert_eq!(app.event_time.editable_positions, vec![0, 1, 3, 4]);
}

fn round_trip_events(today: Date) -> Vec<AgendaEvent> {
    vec![
        ev("gone", d(2024, 5, 1), None, false),
        ev("later", d(2024, 6, 2), None, false),
        ev("now", today, Some(600), false),
        ev("soon", d(2024, 5, 20), None, false),
        ev("far", d(2024, 9, 1), None, false),
        ev("also now", today, None, false),
    ]
}

#[test]
fn selecting_an_event_then_reading_it_back() {
    let today = d(2024, 5, 10);
    for e in [1usize, 2, 3, 5] {
        let mut app = App::new(Vec::new(), Vec::new(), round_trip_events(today), Vec::new(), Vec::new(), Vec::new(), today);
        select_agenda_event_on(&mut app, e, today);
        assert_eq!(get_selected_global_index_on(&app, today), Some(e));
    }
    let mut app = App::new(Vec::new(), Vec::new(), round_trip_events(today), Vec::new(), Vec::new(), Vec::new(), today);
    app.agenda_table_state.select(Some(1));
    select_agenda_event_on(&mut app, 4, today);
    assert_eq!(app.agenda_table_state.selected(), Some(1));
}

#[test]
fn saving_a_task_to_the_table_needs_no_fresh_id() {
    let mut app = App::new(vec![task("one")], Vec::new(), Vec::new(), Vec::new(), Vec::new(), Vec::new(), d(2024, 5, 10));
    app.next_id = u64::MAX;
    app.task_add(TaskDestination::AddTask);
    app.task_name = InputState::with_text("two".to_string());
    assert!(app.can_save_task());
    assert_eq!(app.save_task(), Store::Tasks);
    assert_eq!(app.tasks.len(), 2);
    assert_eq!(app.next_id, u64::MAX);
    app.task_destination = TaskDestination::Preset;
    assert!(!app.can_save_task());
}

#[test]
fn task_rows_show_the_insertion_line_and_the_visual_range() {
    let mut app = App::new(vec![task("a"), task("b"), task("c")], Vec::new(), Vec::new(), Vec::new(), Vec::new(), Vec::new(), d(2024, 5, 10));
    app.popup = Popup::Closed;
    let plain: Vec<TaskRow> = (0..3).map(|i| TaskRow::Task { index: i, marked: false }).collect();
    assert_eq!(table_rows(&app), plain);
    assert_eq!(row_highlight(&app), RowHighlight::Selected);

    app.move_state = MoveState { first: Some(0), last: Some(0), position: Some(2), target: Some(MoveTarget::Tasks) };
    assert_eq!(
        table_rows(&app),
        vec![
            TaskRow::Task { index: 0, marked: false },
            TaskRow::Task { index: 1, marked: false },
            TaskRow::InsertionLine,
            TaskRow::Task { index: 2, marked: false },
        ]
    );
    assert_eq!(row_highlight(&app), RowHighlight::Plain);

    app.move_state = MoveState { first: Some(0), last: Some(0), position: Some(3), target: Some(MoveTarget::PresetTasks) };
    assert_eq!(table_rows(&app).last(), Some(&TaskRow::InsertionLine));
    assert_eq!(table_rows(&app).len(), 4);

    app.move_state = MoveState::default();
    app.n_mode = NavigationMode::Visual;
    app.n_visual_start = Some(2);
    app.tasks_table_state.select(Some(1));
    assert_eq!(
        table_rows(&app),
        vec![
            TaskRow::Task { index: 0, marked: false },
            TaskRow::Task { index: 1, marked: true },
            TaskRow::Task { index: 2, marked: true },
        ]
    );
    assert_eq!(row_highlight(&app), RowHighlight::Visual);
    app.popup = Popup::Help;
    assert_eq!(table_rows(&app), plain);
    assert_eq!(row_highlight(&app), RowHighlight::Plain);
}

#[test]
fn timer_names_lose_unicode_white_space_at_the_ends() {
    let mut app = empty_app();
    app.popup = Popup::Timers(TimersPopup::AddTimer);
    app.timer_name = InputState::with_text("\u{3000}\u{a0} Green tea\t\u{2009}".to_string());
    app.timer_duration = DurationInput { value: "5124095576030431:00:15".to_string(), cursor: 0 };
    save_timer_at(&mut app, 0);
    assert_eq!(app.timers.len(), 1);
    assert_eq!(app.timers[0].name, "Green tea");
    assert_eq!(app.timers[0].duration, u64::MAX);
    assert_eq!(app.timers[0].countdown.remaining_at(0), u64::MAX as u128 * 1000);
}
