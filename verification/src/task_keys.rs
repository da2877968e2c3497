//! The keys of the task table: moving a block of tasks, and the table's
//! commands.
use vstd::prelude::*;
use crate::app::{App, Store, task_popup_opened};
use crate::clock::{Clock, Moment};
use crate::keys::{Key, KeyCode};
use crate::move_items::{self, move_key_effect, move_keys_in_range, start_in_range};
use crate::task_actions::{
    add_tasks_to_preset, block_in, complete_task_at, delete_task, edit_task, hard_reset_task, move_tasks,
    open_known_tasks, open_presets_popup, reset_task, row_in, start_stop_at, started_or_stopped, task_completed,
    task_editable, task_info, task_info_opened, task_move_started, task_opened, task_reset, tasks_copied_to_preset,
    tasks_deleted,
};
use crate::types::{NavigationMode, Popup, TaskDestination, TasksTablePopup};

verus! {

/// What a key does while a block of tasks is being moved: the move, the
/// tasks, the selection and the pending command change as the move's keys
/// say; when the key ends the move, visual mode ends too and the tasks are
/// to be stored.
pub open spec fn task_move_key(o: App, f: App, key: Key, store: Option<Store>) -> bool {
    &&& move_key_effect(o.move_state, o.tasks@, o.tasks_table_state, o.pending_command, key,
        f.move_state, f.tasks@, f.tasks_table_state, f.pending_command)
    &&& if f.move_state.position is None {
        &&& store == Some(Store::Tasks)
        &&& f == (App {
            move_state: f.move_state,
            tasks: f.tasks,
            tasks_table_state: f.tasks_table_state,
            pending_command: f.pending_command,
            n_mode: NavigationMode::Normal,
            n_visual_start: None,
            ..o
        })
    } else {
        &&& store is None
        &&& f == (App {
            move_state: f.move_state,
            tasks: f.tasks,
            tasks_table_state: f.tasks_table_state,
            pending_command: f.pending_command,
            ..o
        })
    }
}

/// What a command key of the task table does at `now`: `ap` starts a
/// preset from the tasks, `t` adds a task, `e` edits the selected one,
/// `dd` deletes, `x` starts moving the visual block, `i` shows the task,
/// `s` starts or stops it, `c` completes it, `r` and `R` reset it, `P`
/// opens the presets and Ctrl-`l` the known tasks; any other key clears
/// the pending command.
pub open spec fn task_command(o: App, f: App, key: Key, now: Moment, store: Option<Store>) -> bool {
    match key.code {
        KeyCode::Char('a') => store is None && f == (App { pending_command: Some('a'), ..o }),
        KeyCode::Char('p') => store is None && if o.pending_command == Some('a') {
            tasks_copied_to_preset(o, f)
        } else {
            f == o
        },
        KeyCode::Char('t') => store is None && task_popup_opened(o, f, TaskDestination::AddTask),
        KeyCode::Char('e') => store is None && task_opened(o, f),
        KeyCode::Char('d') => if o.pending_command == Some('d') {
            tasks_deleted(o, f, store)
        } else {
            store is None && f == (App { pending_command: Some('d'), ..o })
        },
        KeyCode::Char('x') => store is None && task_move_started(o, f),
        KeyCode::Char('i') => store is None && f == task_info_opened(o),
        KeyCode::Char('s') => store is None && started_or_stopped(o, f, now),
        KeyCode::Char('c') => {
            &&& store == (if o.tasks_table_state.selected is Some { Some(Store::Tasks) } else { None })
            &&& task_completed(o, f, now)
        },
        KeyCode::Char('r') => {
            &&& store == (if o.tasks_table_state.selected is Some { Some(Store::Tasks) } else { None })
            &&& task_reset(o, f, false)
        },
        KeyCode::Char('R') => {
            &&& store == (if o.tasks_table_state.selected is Some { Some(Store::Tasks) } else { None })
            &&& task_reset(o, f, true)
        },
        KeyCode::Char('P') => store is None && f == (App { popup: Popup::TasksTable(TasksTablePopup::Presets), ..o }),
        KeyCode::Char('l') if key.ctrl => store is None && f == (App { popup: Popup::TasksTable(TasksTablePopup::KnownTasks), ..o }),
        _ => store is None && f == (App { pending_command: None, ..o }),
    }
}

/// What a key does in the task table at `now`.
pub open spec fn task_key_handled(o: App, f: App, key: Key, now: Moment, store: Option<Store>) -> bool {
    if o.move_state.position is Some {
        task_move_key(o, f, key, store)
    } else {
        task_command(o, f, key, now, store)
    }
}

/// Whether the task table can handle any key: the move, the selection and
/// the block to delete lie within the tasks, the selected task can be
/// edited, and the ids of a new preset fit.
pub open spec fn task_keys_ready(app: App) -> bool {
    &&& move_keys_in_range(app.move_state, app.tasks@.len())
    &&& task_editable(app)
    &&& block_in(app.n_mode, app.n_visual_start, app.tasks_table_state.selected, app.tasks@.len() as int)
    &&& start_in_range(app.tasks_table_state.selected, app.n_visual_start)
    &&& app.next_id + app.tasks@.len() <= u64::MAX
}

fn move_key(app: &mut App, key: Key) -> (store: Option<Store>)
    requires
        old(app).move_state.position is Some,
        move_keys_in_range(old(app).move_state, old(app).tasks@.len()),
    ensures
        task_move_key(*old(app), *final(app), key, store),
{
    move_items::handle_keys(&mut app.move_state, &mut app.tasks, &mut app.tasks_table_state, &mut app.pending_command, key);
    if !app.move_state.is_moving() {
        app.n_mode = NavigationMode::Normal;
        app.n_visual_start = None;
        return Some(Store::Tasks);
    }
    None
}

fn run_command(app: &mut App, key: Key, now: Moment) -> (store: Option<Store>)
    requires
        task_keys_ready(*old(app)),
    ensures
        task_command(*old(app), *final(app), key, now, store),
{
    match key.code {
        KeyCode::Char('a') => {
            app.pending_command = Some('a');
            None
        },
        KeyCode::Char('p') => {
            if app.pending_command == Some('a') {
                add_tasks_to_preset(app);
            }
            None
        },
        KeyCode::Char('t') => {
            app.task_add(TaskDestination::AddTask);
            None
        },
        KeyCode::Char('e') => {
            edit_task(app);
            None
        },
        KeyCode::Char('d') => {
            if app.pending_command == Some('d') {
                delete_task(app)
            } else {
                app.pending_command = Some('d');
                None
            }
        },
        KeyCode::Char('x') => {
            move_tasks(app);
            None
        },
        KeyCode::Char('i') => {
            task_info(app);
            None
        },
        KeyCode::Char('s') => {
            start_stop_at(app, now);
            None
        },
        KeyCode::Char('c') => complete_task_at(app, now),
        KeyCode::Char('r') => reset_task(app),
        KeyCode::Char('R') => hard_reset_task(app),
        KeyCode::Char('P') => {
            open_presets_popup(app);
            None
        },
        KeyCode::Char('l') if key.ctrl => {
            open_known_tasks(app);
            None
        },
        _ => {
            app.pending_command = None;
            None
        },
    }
}

/// Handles a key in the task table at `now`: while a block of tasks is
/// being moved the key goes to the move, otherwise it is a command. The
/// tasks are to be stored when a move ends or tasks were deleted,
/// completed or reset.
pub fn handle_keys_at(app: &mut App, key: Key, now: Moment) -> (store: Option<Store>)
    requires
        task_keys_ready(*old(app)),
    ensures
        task_key_handled(*old(app), *final(app), key, now, store),
{
    if app.move_state.is_moving() {
        return move_key(app, key);
    }
    run_command(app, key, now)
}

/// Handles a key in the task table now, on `clock`.
pub fn handle_keys(app: &mut App, key: Key, clock: &mut Clock) -> (store: Option<Store>)
    requires
        task_keys_ready(*old(app)),
    ensures
        final(clock)@ >= old(clock)@,
        exists|now: Moment| now.tick == final(clock)@ && #[trigger] task_key_handled(*old(app), *final(app), key, now, store),
{
    let now = clock.now();
    handle_keys_at(app, key, now)
}


/// Tells whether the task table can take a key: the move, the selection
/// and the block to delete lie within the tasks, and the ids of a new
/// preset fit.
pub fn task_keys_fit(app: &App) -> (r: bool)
    ensures
        r == task_keys_ready(*app),
{
    let n = app.tasks.len();
    let moving_ok = match (app.move_state.first, app.move_state.last, app.move_state.position) {
        (Some(f), Some(l), Some(_)) => n > 0 && f <= l && l < usize::MAX,
        _ => true,
    };
    let row_ok = match app.tasks_table_state.selected() {
        Some(i) => i < n && app.tasks[i].name.as_str().unicode_len() < usize::MAX
            && app.tasks[i].planned_start.as_str().unicode_len() < usize::MAX
            && app.tasks[i].planned_end.as_str().unicode_len() < usize::MAX,
        None => true,
    };
    let block_ok = match app.tasks_table_state.selected() {
        Some(c) => {
            let (_, last) = crate::lists::action_bounds(app.n_mode, app.n_visual_start, c);
            last < n
        },
        None => true,
    };
    let start_ok = match app.tasks_table_state.selected() {
        Some(i) => match app.n_visual_start {
            Some(s) => (if s <= i { i } else { s }) < usize::MAX,
            None => i < usize::MAX,
        },
        None => true,
    };
    let ids_ok = app.next_id <= u64::MAX - n as u64;
    moving_ok && row_ok && block_ok && start_ok && ids_ok
}

} // verus!
