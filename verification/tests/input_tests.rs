use duetime::keys::{Key, KeyCode};
use duetime::suggestions::task_name_suggestions;
use duetime::models::{KnownTask, Preset, TaskTemplate};
use duetime::text_input::InputState;
use duetime::tasks::{format_time, TaskInfo, TaskInfoData};
use duetime::stopwatch::StopwatchData;
use duetime::inbox::{InboxItemInfo, InboxItemInfoData};
use duetime::types::Priority;

#[test]
fn typing_into_a_field() {
    let mut field = InputState::new();
    field.handle_key(Key::plain(KeyCode::Char('a')));
    field.handle_key(Key::plain(KeyCode::Char('c')));
    field.handle_key(Key::plain(KeyCode::Left));
    field.handle_key(Key::plain(KeyCode::Char('b')));
    assert_eq!(field.text, "abc");
    assert_eq!(field.cursor, 2);
    field.handle_key(Key::plain(KeyCode::Right));
    field.handle_key(Key::plain(KeyCode::Right));
    assert_eq!(field.cursor, 3);
    field.handle_key(Key::plain(KeyCode::Backspace));
    assert_eq!(field.text, "ab");
    field.handle_key(Key::plain(KeyCode::Enter));
    assert_eq!(field.text, "ab");
    field.clear();
    assert_eq!(field.text, "");
    assert_eq!(field.cursor, 0);
    field.handle_key(Key::plain(KeyCode::Backspace));
    assert_eq!(field.text, "");
}

#[test]
fn type_then_backspace_restores() {
    let mut field = InputState::with_text("héllo".to_string());
    assert_eq!(field.cursor, 5);
    field.handle_key(Key::plain(KeyCode::Left));
    field.handle_key(Key::plain(KeyCode::Left));
    field.handle_key(Key::plain(KeyCode::Char('x')));
    assert_eq!(field.text, "hélxlo");
    field.handle_key(Key::plain(KeyCode::Backspace));
    assert_eq!(field.text, "héllo");
    assert_eq!(field.cursor, 3);
}

fn template(name: &str) -> TaskTemplate {
    TaskTemplate { id: 0, name: name.to_string(), planned_start: None, planned_end: None }
}

#[test]
fn suggestions_from_known_tasks_and_presets() {
    let known = vec![KnownTask { id: 1, name: "Write report".to_string() }, KnownTask { id: 2, name: "Walk".to_string() }];
    let presets = vec![Preset { id: 3, name: "p".to_string(), tasks: vec![template("write REPORT"), template("Wash up"), template("Read")] }];
    let s = task_name_suggestions(&known, &presets, "w");
    assert_eq!(s, vec!["Write report".to_string(), "Walk".to_string(), "Wash up".to_string()]);
    assert!(task_name_suggestions(&known, &presets, "").is_empty());
    assert!(task_name_suggestions(&known, &presets, "zz").is_empty());
}

#[test]
fn at_most_eight_suggestions() {
    let known: Vec<KnownTask> = (0..12).map(|i| KnownTask { id: i, name: format!("task {}", i) }).collect();
    let s = task_name_suggestions(&known, &[], "task");
    assert_eq!(s.len(), 8);
    assert_eq!(s[0], "task 0");
    assert_eq!(s[7], "task 7");
}

#[test]
fn task_data_round_trip() {
    let data = TaskInfoData {
        name: "n".to_string(),
        status: "STOPPED".to_string(),
        planned_start: "09:00".to_string(),
        planned_end: "10:00".to_string(),
        actual_start: Some(5),
        actual_end: None,
        stopwatch: StopwatchData { elapsed_secs: 90, running: false },
    };
    let t = TaskInfo::from_data(TaskInfoData { name: "n".to_string(), status: "STOPPED".to_string(), planned_start: "09:00".to_string(), planned_end: "10:00".to_string(), actual_start: Some(5), actual_end: None, stopwatch: StopwatchData { elapsed_secs: 90, running: false } });
    assert_eq!(t.to_data_at(0), data);
    assert_eq!(format_time(None), "");
}

#[test]
fn inbox_data_round_trip() {
    let i = InboxItemInfo::from_data(InboxItemInfoData { input: "x".to_string(), priority: Priority::High });
    assert_eq!(i.to_data(), InboxItemInfoData { input: "x".to_string(), priority: Priority::High });
}
