use duetime::clock::Moment;
use duetime::agenda::AgendaEvent;
use duetime::agenda_keys::{self, close_event_popup, handle_event_info_keys, handle_keys_on as agenda_keys_on};
use duetime::app::{App, Store};
use duetime::selection::Selectable;
use duetime::dates::Date;
use duetime::events::{route_key, KeyRoute};
use duetime::inbox::InboxItemInfo;
use duetime::inbox_keys;
use duetime::keys::{Key, KeyCode};
use duetime::keys_help::keys;
use duetime::models::KnownTask;
use duetime::task_keys;
use duetime::task_popup_keys::{self, handle_suggestion_keys, update_suggestions};
use duetime::tasks::TaskInfo;
use duetime::text_input::InputState;
use duetime::timer_keys::{self, close_timer_popup, handle_finished_keys, handle_keys_at as timer_keys_at};
use duetime::timers::{TimerInfo, TimerInfoData};
use duetime::types::{
    AgendaPopup, AgendaSelectedInput, InboxPopup, InputMode, NavigationMode, Panel, Popup, Priority, TaskSelectedInput,
    TasksTablePopup, TimerSelectedInput, TimersPopup,
};

fn at(ms: u64) -> Moment {
    Moment { unix_ms: ms, tick: ms as u128 }
}


fn d(year: i32, month: u32, day: u32) -> Date {
    Date { year, month, day }
}

fn key(c: char) -> Key {
    Key::plain(KeyCode::Char(c))
}

fn task(name: &str) -> TaskInfo {
    let mut t = TaskInfo::default();
    t.name = name.to_string();
    t.status = "PENDING".to_string();
    t
}

fn app_with(tasks: Vec<TaskInfo>, inbox: Vec<InboxItemInfo>, events: Vec<AgendaEvent>, timers: Vec<TimerInfo>) -> App {
    App::new(tasks, inbox, events, Vec::new(), Vec::new(), timers, d(2024, 5, 10))
}

// ------------------------------------------------------------ routing

#[test]
fn help_and_focus_keys() {
    let mut app = app_with(Vec::new(), Vec::new(), Vec::new(), Vec::new());
    assert_eq!(route_key(&mut app, key('L')), (KeyRoute::Done, None));
    assert_eq!(app.focused_panel, Panel::Inbox);
    assert_eq!(route_key(&mut app, key('J')), (KeyRoute::Done, None));
    assert_eq!(app.focused_panel, Panel::Agenda);
    assert_eq!(route_key(&mut app, key('K')), (KeyRoute::Done, None));
    assert_eq!(app.focused_panel, Panel::Inbox);
    assert_eq!(route_key(&mut app, key('H')), (KeyRoute::Done, None));
    assert_eq!(app.focused_panel, Panel::TasksTable);
    assert_eq!(route_key(&mut app, key('H')), (KeyRoute::Done, None));
    assert_eq!(app.focused_panel, Panel::TasksTable);
    assert_eq!(route_key(&mut app, key('?')), (KeyRoute::Done, None));
    assert_eq!(app.popup, Popup::Help);
    assert_eq!(route_key(&mut app, key('L')), (KeyRoute::Help, None));
    assert_eq!(app.focused_panel, Panel::TasksTable);
}

#[test]
fn q_stops_the_planner_and_goes_on() {
    let mut app = app_with(Vec::new(), Vec::new(), Vec::new(), Vec::new());
    assert_eq!(route_key(&mut app, key('q')), (KeyRoute::TasksTable, Some(Store::Tasks)));
    assert!(!app.running);
}

#[test]
fn popups_get_the_keys() {
    let mut app = app_with(Vec::new(), Vec::new(), Vec::new(), Vec::new());
    app.popup = Popup::Agenda(AgendaPopup::EventInfo);
    assert_eq!(route_key(&mut app, key('q')), (KeyRoute::EventInfo, None));
    assert!(app.running);
    app.popup = Popup::Timers(TimersPopup::TimerFinished(0));
    assert_eq!(route_key(&mut app, key('x')), (KeyRoute::TimerFinished, None));
    app.popup = Popup::TasksTable(TasksTablePopup::EditKnownTask(2));
    assert_eq!(route_key(&mut app, key('x')), (KeyRoute::KnownTaskPopup, None));
    app.popup = Popup::Closed;
    app.focused_panel = Panel::Timers;
    assert_eq!(route_key(&mut app, key('x')), (KeyRoute::Timers, None));
    assert_eq!(route_key(&mut app, key('J')), (KeyRoute::Done, None));
    assert_eq!(app.focused_panel, Panel::Timers);
}

// ------------------------------------------------------------ task table

#[test]
fn dd_deletes_the_selected_task() {
    let mut app = app_with(vec![task("a"), task("b")], Vec::new(), Vec::new(), Vec::new());
    assert_eq!(task_keys::handle_keys_at(&mut app, key('d'), at(0)), None);
    assert_eq!(app.pending_command, Some('d'));
    assert_eq!(task_keys::handle_keys_at(&mut app, key('d'), at(0)), Some(Store::Tasks));
    assert_eq!(app.tasks.len(), 1);
    assert_eq!(app.tasks[0].name, "b");
    assert_eq!(app.pending_command, None);
}

#[test]
fn other_keys_clear_the_pending_command() {
    let mut app = app_with(vec![task("a")], Vec::new(), Vec::new(), Vec::new());
    task_keys::handle_keys_at(&mut app, key('d'), at(0));
    task_keys::handle_keys_at(&mut app, key('z'), at(0));
    assert_eq!(app.pending_command, None);
    assert_eq!(app.tasks.len(), 1);
    task_keys::handle_keys_at(&mut app, key('l'), at(0));
    assert_eq!(app.popup, Popup::Closed);
    task_keys::handle_keys_at(&mut app, Key::with_ctrl(KeyCode::Char('l')), at(0));
    assert_eq!(app.popup, Popup::TasksTable(TasksTablePopup::KnownTasks));
}

#[test]
fn start_stop_complete_and_reset() {
    let mut app = app_with(vec![task("a")], Vec::new(), Vec::new(), Vec::new());
    assert_eq!(task_keys::handle_keys_at(&mut app, key('s'), at(1_000)), None);
    assert_eq!(app.tasks[0].status, "IN PROGRESS");
    assert_eq!(app.tasks[0].actual_start, Some(1_000));
    task_keys::handle_keys_at(&mut app, key('s'), at(3_000));
    assert_eq!(app.tasks[0].status, "STOPPED");
    assert_eq!(app.tasks[0].stopwatch.elapsed_at(0), 2_000);
    assert_eq!(task_keys::handle_keys_at(&mut app, key('c'), at(9_000)), Some(Store::Tasks));
    assert_eq!(app.tasks[0].status, "COMPLETED");
    assert_eq!(app.tasks[0].actual_end, Some(9_000));
    app.tasks[0].planned_start = "08:00".to_string();
    assert_eq!(task_keys::handle_keys_at(&mut app, key('r'), at(0)), Some(Store::Tasks));
    assert_eq!(app.tasks[0].status, "PENDING");
    assert_eq!(app.tasks[0].planned_start, "08:00");
    assert_eq!(app.tasks[0].actual_start, None);
    assert_eq!(app.tasks[0].stopwatch.elapsed_at(0), 0);
    task_keys::handle_keys_at(&mut app, key('R'), at(0));
    assert_eq!(app.tasks[0].planned_start, "");
}

#[test]
fn ap_starts_a_preset_from_the_tasks() {
    let mut app = app_with(vec![task("a"), task("b")], Vec::new(), Vec::new(), Vec::new());
    task_keys::handle_keys_at(&mut app, key('p'), at(0));
    assert_eq!(app.popup, Popup::Closed);
    task_keys::handle_keys_at(&mut app, key('a'), at(0));
    assert_eq!(app.pending_command, Some('a'));
    task_keys::handle_keys_at(&mut app, key('p'), at(0));
    assert_eq!(app.popup, Popup::TasksTable(TasksTablePopup::NewPreset));
    assert_eq!(app.preset_tasks.len(), 2);
    assert_eq!(app.preset_tasks[1].name, "b");
    assert_eq!(app.preset_tasks[0].id, 1);
    assert_eq!(app.next_id, 3);
}

#[test]
fn moving_tasks_with_keys() {
    let mut app = app_with(vec![task("a"), task("b"), task("c")], Vec::new(), Vec::new(), Vec::new());
    app.n_mode = NavigationMode::Visual;
    app.n_visual_start = None;
    app.tasks_table_state.select(Some(0));
    task_keys::handle_keys_at(&mut app, key('x'), at(0));
    assert!(app.move_state.is_moving());
    assert_eq!(task_keys::handle_keys_at(&mut app, key('j'), at(0)), None);
    assert_eq!(task_keys::handle_keys_at(&mut app, key('j'), at(0)), None);
    assert_eq!(task_keys::handle_keys_at(&mut app, Key::plain(KeyCode::Enter), at(0)), Some(Store::Tasks));
    let names: Vec<&str> = app.tasks.iter().map(|t| t.name.as_str()).collect();
    assert_eq!(names, vec!["b", "c", "a"]);
    assert_eq!(app.tasks_table_state.selected(), Some(2));
    assert_eq!(app.n_mode, NavigationMode::Normal);
}

#[test]
fn x_outside_visual_mode_does_nothing() {
    let mut app = app_with(vec![task("a")], Vec::new(), Vec::new(), Vec::new());
    task_keys::handle_keys_at(&mut app, key('x'), at(0));
    assert!(!app.move_state.is_moving());
}

// ------------------------------------------------------------ inbox

fn note(text: &str) -> InboxItemInfo {
    InboxItemInfo { input: text.to_string(), priority: Priority::Medium }
}

#[test]
fn inbox_search_selects_the_first_match() {
    let mut app = app_with(Vec::new(), vec![note("buy milk"), note("call Bob"), note("bob's party")], Vec::new(), Vec::new());
    app.focused_panel = Panel::Inbox;
    inbox_keys::handle_keys(&mut app, key('/'));
    assert_eq!(app.n_mode, NavigationMode::Search);
    assert_eq!(app.search_panel, Some(Panel::Inbox));
    inbox_keys::handle_keys(&mut app, key('B'));
    inbox_keys::handle_keys(&mut app, key('o'));
    assert_eq!(app.inbox_search.query, "Bo");
    assert_eq!(app.inbox_tasks_table_state.selected(), Some(1));
    inbox_keys::handle_keys(&mut app, Key::plain(KeyCode::Esc));
    assert_eq!(app.n_mode, NavigationMode::Normal);
    assert_eq!(app.inbox_search.query, "");
    assert_eq!(app.search_panel, None);
}

#[test]
fn inbox_commands() {
    let mut app = app_with(Vec::new(), vec![note("one"), note("two")], Vec::new(), Vec::new());
    app.focused_panel = Panel::Inbox;
    let r = inbox_keys::handle_keys(&mut app, key('y'));
    assert_eq!(r.copy, Some("one".to_string()));
    assert_eq!(r.store, None);
    inbox_keys::handle_keys(&mut app, key('e'));
    assert_eq!(app.popup, Popup::Inbox(InboxPopup::EditInboxItem));
    assert_eq!(app.inbox_item.text, "one");
    assert_eq!(app.priority, Priority::Medium);
    app.popup = Popup::Closed;
    inbox_keys::handle_keys(&mut app, key('d'));
    let r = inbox_keys::handle_keys(&mut app, key('d'));
    assert_eq!(r.store, Some(Store::Inbox));
    assert_eq!(app.inbox_items.len(), 1);
    assert_eq!(app.inbox_items[0].input, "two");
    assert_eq!(app.pending_command, None);
    inbox_keys::handle_keys(&mut app, key('a'));
    assert_eq!(app.popup, Popup::Inbox(InboxPopup::AddInboxItem));
    assert_eq!(app.priority, Priority::Low);
    assert_eq!(app.mode, InputMode::Insert);
}

#[test]
fn inbox_search_navigation() {
    let mut app = app_with(Vec::new(), vec![note("a"), note("b"), note("c")], Vec::new(), Vec::new());
    app.n_mode = NavigationMode::SearchNavigation;
    app.inbox_search.matches = vec![0, 2];
    inbox_keys::handle_keys(&mut app, key('n'));
    assert_eq!(app.inbox_search.current_match, 1);
    assert_eq!(app.inbox_tasks_table_state.selected(), Some(2));
    inbox_keys::handle_keys(&mut app, key('q'));
    assert_eq!(app.n_mode, NavigationMode::Normal);
    assert!(app.inbox_search.matches.is_empty());
}

// ------------------------------------------------------------ timers

fn timer(name: &str, secs: u64) -> TimerInfo {
    TimerInfo::from_data(TimerInfoData { name: name.to_string(), duration: secs, status: "READY".to_string() })
}

#[test]
fn timer_grid_keys() {
    let timers = (0..5).map(|i| timer(&format!("t{}", i), 60)).collect();
    let mut app = app_with(Vec::new(), Vec::new(), Vec::new(), timers);
    timer_keys_at(&mut app, key('l'), at(0));
    assert_eq!(app.timers_list_state.selected(), Some(1));
    timer_keys_at(&mut app, key('j'), at(0));
    assert_eq!(app.timers_list_state.selected(), Some(3));
    timer_keys_at(&mut app, key('k'), at(0));
    assert_eq!(app.timers_list_state.selected(), Some(0));
    timer_keys_at(&mut app, key('l'), at(0));
    timer_keys_at(&mut app, key('h'), at(0));
    assert_eq!(app.timers_list_state.selected(), Some(0));
    timer_keys_at(&mut app, key('s'), at(500));
    assert!(app.timers[0].countdown.running());
    timer_keys_at(&mut app, key('d'), at(0));
    timer_keys_at(&mut app, key('d'), at(0));
    assert_eq!(app.timers.len(), 4);
    assert_eq!(app.timers[0].name, "t1");
    timer_keys_at(&mut app, key('a'), at(0));
    assert_eq!(app.popup, Popup::Timers(TimersPopup::AddTimer));
    assert_eq!(app.timer_duration.value, "00:00:00");
}

#[test]
fn finished_timer_is_dismissed() {
    let mut app = app_with(Vec::new(), Vec::new(), Vec::new(), vec![timer("a", 1), timer("b", 1)]);
    app.popup = Popup::Timers(TimersPopup::TimerFinished(1));
    assert_eq!(handle_finished_keys(&mut app, key('x')), None);
    assert_eq!(app.timers.len(), 2);
    assert_eq!(handle_finished_keys(&mut app, Key::plain(KeyCode::Enter)), Some(Store::Timers));
    assert_eq!(app.timers.len(), 1);
    assert_eq!(app.timers_list_state.selected(), Some(0));
    assert_eq!(app.popup, Popup::Closed);
}

#[test]
fn closing_popups_while_typing() {
    let mut app = app_with(Vec::new(), Vec::new(), Vec::new(), Vec::new());
    app.popup = Popup::Timers(TimersPopup::AddTimer);
    app.timer_selected_input = TimerSelectedInput::Name;
    app.mode = InputMode::Insert;
    close_timer_popup(&mut app);
    assert_eq!(app.popup, Popup::Timers(TimersPopup::AddTimer));
    app.mode = InputMode::Normal;
    close_timer_popup(&mut app);
    assert_eq!(app.popup, Popup::Closed);
    app.popup = Popup::Agenda(AgendaPopup::AddEvent);
    app.agenda_selected_input = AgendaSelectedInput::Date;
    app.mode = InputMode::Insert;
    close_event_popup(&mut app);
    assert_eq!(app.popup, Popup::Closed);
}

// ------------------------------------------------------------ agenda

fn ev(name: &str, date: Date) -> AgendaEvent {
    AgendaEvent { name: name.to_string(), date, time: None, repeat: false }
}

#[test]
fn agenda_keys() {
    let today = d(2024, 5, 10);
    let mut app = app_with(Vec::new(), Vec::new(), vec![ev("Lunch", today), ev("Trip", d(2024, 5, 20))], Vec::new());
    app.focused_panel = Panel::Agenda;
    app.agenda_table_state.select(Some(1));
    assert_eq!(agenda_keys_on(&mut app, key('i'), today), None);
    assert_eq!(app.popup, Popup::Agenda(AgendaPopup::EventInfo));
    assert_eq!(app.last_popup, Popup::Closed);
    handle_event_info_keys(&mut app, key('x'));
    assert_eq!(app.popup, Popup::Agenda(AgendaPopup::EventInfo));
    handle_event_info_keys(&mut app, key('q'));
    assert_eq!(app.popup, Popup::Closed);
    agenda_keys_on(&mut app, key('l'), today);
    assert_eq!(app.popup, Popup::Agenda(AgendaPopup::AllEvents));
    app.popup = Popup::Closed;
    agenda_keys_on(&mut app, key('/'), today);
    assert_eq!(app.n_mode, NavigationMode::Search);
    agenda_keys_on(&mut app, key('t'), today);
    agenda_keys_on(&mut app, key('r'), today);
    assert_eq!(app.agenda_search.matches, vec![1]);
    assert_eq!(app.agenda_table_state.selected(), Some(4));
    agenda_keys_on(&mut app, Key::plain(KeyCode::Enter), today);
    assert_eq!(app.n_mode, NavigationMode::SearchNavigation);
    agenda_keys_on(&mut app, Key::plain(KeyCode::Esc), today);
    assert_eq!(app.n_mode, NavigationMode::Normal);
    assert_eq!(agenda_keys_on(&mut app, key('d'), today), None);
    assert_eq!(agenda_keys_on(&mut app, key('d'), today), Some(Store::Agenda));
    assert_eq!(app.events.len(), 1);
    assert_eq!(app.events[0].name, "Lunch");
    assert_eq!(app.agenda_table_state.selected(), Some(1));
    agenda_keys_on(&mut app, key('e'), today);
    assert_eq!(app.popup, Popup::Agenda(AgendaPopup::EditEvent));
    assert_eq!(app.event_name.text, "Lunch");
}

// ------------------------------------------------------------ popups

#[test]
fn key_hints_of_popups() {
    let mut app = app_with(Vec::new(), Vec::new(), Vec::new(), Vec::new());
    assert!(keys(&app).is_empty());
    app.popup = Popup::TasksTable(TasksTablePopup::AddTask);
    assert_eq!(keys(&app), vec![("Enter".to_string(), " Save  ".to_string()), ("Esc".to_string(), " Cancel".to_string())]);
    app.popup = Popup::Inbox(InboxPopup::InfoInboxItem);
    assert_eq!(keys(&app), vec![("cc".to_string(), " Copy text  ".to_string()), ("q".to_string(), " Close".to_string())]);
    app.popup = Popup::TasksTable(TasksTablePopup::Presets);
    assert_eq!(keys(&app).len(), 5);
    app.popup = Popup::Agenda(AgendaPopup::AddEvent);
    assert!(keys(&app).is_empty());
}

#[test]
fn picking_a_suggestion() {
    let known = vec![KnownTask { id: 1, name: "Email".to_string() }, KnownTask { id: 2, name: "Emacs".to_string() }];
    let mut app = App::new(Vec::new(), Vec::new(), Vec::new(), Vec::new(), known, Vec::new(), d(2024, 5, 10));
    app.tasks_selected_input = TaskSelectedInput::TaskName;
    assert!(!handle_suggestion_keys(&mut app, Key::plain(KeyCode::Enter)));
    app.task_name = InputState::with_text("em".to_string());
    update_suggestions(&mut app);
    assert_eq!(app.suggestions, vec!["Email".to_string(), "Emacs".to_string()]);
    assert!(handle_suggestion_keys(&mut app, Key::with_ctrl(KeyCode::Char('j'))));
    assert_eq!(app.selected_suggestion, 1);
    assert!(handle_suggestion_keys(&mut app, Key::with_ctrl(KeyCode::Char('j'))));
    assert_eq!(app.selected_suggestion, 1);
    assert!(!handle_suggestion_keys(&mut app, key('j')));
    assert!(handle_suggestion_keys(&mut app, Key::plain(KeyCode::Enter)));
    assert_eq!(app.task_name.text, "Emacs");
    assert_eq!(app.task_name.cursor, 5);
    assert!(app.suggestions.is_empty());
}

#[test]
fn event_popup_keys() {
    let today = d(2024, 5, 10);
    let mut app = app_with(Vec::new(), Vec::new(), Vec::new(), Vec::new());
    duetime::agenda_actions::add_event_on(&mut app, today);
    assert_eq!(app.mode, InputMode::Insert);
    agenda_keys::handle_event_popup_keys_at(&mut app, key('j'), 0);
    agenda_keys::handle_event_popup_keys_at(&mut app, key('o'), 0);
    assert_eq!(app.event_name.text, "jo");
    assert_eq!(app.agenda_selected_input, AgendaSelectedInput::Name);
    agenda_keys::handle_event_popup_keys_at(&mut app, Key::plain(KeyCode::Esc), 0);
    assert_eq!(app.popup, Popup::Agenda(AgendaPopup::AddEvent));
    agenda_keys::handle_event_popup_keys_at(&mut app, Key::plain(KeyCode::Tab), 0);
    assert_eq!(app.agenda_selected_input, AgendaSelectedInput::Date);
    agenda_keys::handle_event_popup_keys_at(&mut app, key('j'), 0);
    agenda_keys::handle_event_popup_keys_at(&mut app, key('j'), 0);
    assert_eq!(app.agenda_selected_input, AgendaSelectedInput::Repeat);
    agenda_keys::handle_event_popup_keys_at(&mut app, key(' '), 0);
    assert!(app.event_repeat);
    agenda_keys::handle_event_popup_keys_at(&mut app, key('k'), 0);
    assert_eq!(app.agenda_selected_input, AgendaSelectedInput::Time);
    assert_eq!(agenda_keys::handle_event_popup_keys_at(&mut app, Key::plain(KeyCode::Enter), 0), Some(Store::Agenda));
    assert_eq!(app.events.len(), 1);
    assert_eq!(app.events[0].name, "jo");
    assert_eq!(app.events[0].date, today);
    assert_eq!(app.events[0].time, None);
    assert!(app.events[0].repeat);
    assert_eq!(app.popup, Popup::Closed);
}

#[test]
fn timer_popup_keys() {
    let mut app = app_with(Vec::new(), Vec::new(), Vec::new(), Vec::new());
    timer_keys_at(&mut app, key('a'), at(0));
    timer_keys::handle_timer_popup_keys_at(&mut app, key('T'), 0);
    timer_keys::handle_timer_popup_keys_at(&mut app, key('k'), 0);
    assert_eq!(app.timer_name.text, "Tk");
    timer_keys::handle_timer_popup_keys_at(&mut app, Key::plain(KeyCode::Tab), 0);
    assert_eq!(app.timer_selected_input, TimerSelectedInput::Duration);
    timer_keys::handle_timer_popup_keys_at(&mut app, key('k'), 0);
    assert_eq!(app.timer_selected_input, TimerSelectedInput::Name);
    app.timer_duration.value = "00:01:00".to_string();
    timer_keys::handle_timer_popup_keys_at(&mut app, Key::plain(KeyCode::Enter), 0);
    assert_eq!(app.timers.len(), 1);
    assert_eq!(app.timers[0].name, "Tk");
    assert_eq!(app.timers[0].duration, 60);
    assert_eq!(app.popup, Popup::Closed);
}

#[test]
fn task_popup_keys() {
    let mut app = app_with(vec![task("first")], Vec::new(), Vec::new(), Vec::new());
    app.task_add(duetime::types::TaskDestination::AddTask);
    task_popup_keys::handle_keys(&mut app, key('W'));
    task_popup_keys::handle_keys(&mut app, key('x'));
    task_popup_keys::handle_keys(&mut app, Key::plain(KeyCode::Backspace));
    assert_eq!(app.task_name.text, "W");
    task_popup_keys::handle_keys(&mut app, Key::plain(KeyCode::Tab));
    assert_eq!(app.tasks_selected_input, TaskSelectedInput::PlannedStart);
    task_popup_keys::handle_keys(&mut app, key('9'));
    task_popup_keys::handle_keys(&mut app, Key::plain(KeyCode::BackTab));
    task_popup_keys::handle_keys(&mut app, Key::plain(KeyCode::BackTab));
    assert_eq!(app.tasks_selected_input, TaskSelectedInput::PlannedEnd);
    assert_eq!(task_popup_keys::handle_keys(&mut app, Key::plain(KeyCode::Enter)), Some(Store::Tasks));
    assert_eq!(app.tasks.len(), 2);
    assert_eq!(app.tasks[1].name, "W");
    assert_eq!(app.tasks[1].planned_start, "9");
    app.task_add(duetime::types::TaskDestination::AddTask);
    task_popup_keys::handle_keys(&mut app, Key::plain(KeyCode::Esc));
    assert_eq!(app.popup, Popup::Closed);
}

#[test]
fn total_of_the_stopwatches() {
    let mut app = app_with(vec![task("a"), task("b")], Vec::new(), Vec::new(), Vec::new());
    app.tasks[0].stopwatch.start_at(0);
    app.tasks[0].stopwatch.stop_at(1_500);
    app.tasks[1].stopwatch.start_at(10_000);
    assert_eq!(duetime::task_actions::total_elapsed_at(&app, 12_000), 3_500);
}
