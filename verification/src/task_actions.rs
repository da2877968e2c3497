//! The actions of the task table.
use vstd::prelude::*;
use crate::app::{App, Store, is_cleared, holds_text};
use crate::lists::{action_block, action_bounds, drain_range, without_block, clamp_selection, clamped_selection};
use crate::models::TaskTemplate;
use crate::move_items::{self, MoveTarget, start_in_range};
use crate::selection::Selectable;
use crate::clock::{Clock, Moment};
use crate::stopwatch::elapsed_spec;
use crate::tasks::TaskInfo;
use crate::text_input::InputState;
use crate::types::{InputMode, NavigationMode, NewPresetFocus, Popup, TaskDestination, TaskSelectedInput, TasksTablePopup};

verus! {

/// Whether row `i` of a list of the given length may be read.
pub open spec fn row_in(sel: Option<usize>, len: int) -> bool {
    sel matches Some(i) ==> (i as int) < len
}

/// Whether the selected task, if any, can be opened for editing.
pub open spec fn task_editable(app: App) -> bool {
    &&& row_in(app.tasks_table_state.selected, app.tasks@.len() as int)
    &&& app.tasks_table_state.selected matches Some(i) ==> {
        &&& app.tasks@[i as int].name@.len() < usize::MAX
        &&& app.tasks@[i as int].planned_start@.len() < usize::MAX
        &&& app.tasks@[i as int].planned_end@.len() < usize::MAX
    }
}

/// The selected task was opened for editing: its name and planned times
/// went into the task popup, cursors at the end.
pub open spec fn task_opened(o: App, f: App) -> bool {
    match o.tasks_table_state.selected {
        None => f == o,
        Some(i) => {
            let t = o.tasks@[i as int];
            &&& holds_text(f.task_name, t.name@)
            &&& holds_text(f.planned_start, t.planned_start@)
            &&& holds_text(f.planned_end, t.planned_end@)
            &&& f == (App {
                task_destination: TaskDestination::EditTask(i),
                task_name: f.task_name,
                planned_start: f.planned_start,
                planned_end: f.planned_end,
                mode: InputMode::Normal,
                popup: Popup::TasksTable(TasksTablePopup::EditTask),
                tasks_selected_input: TaskSelectedInput::TaskName,
                pending_command: None,
                ..o
            })
        },
    }
}

/// Opens the selected task for editing: its name and planned times go into
/// the task popup, cursors at the end.
pub fn edit_task(app: &mut App)
    requires
        task_editable(*old(app)),
    ensures
        task_opened(*old(app), *final(app)),
{
    if let Some(index) = app.tasks_table_state.selected() {
        app.task_destination = TaskDestination::EditTask(index);
        let name = app.tasks[index].name.clone();
        let start = app.tasks[index].planned_start.clone();
        let end = app.tasks[index].planned_end.clone();
        app.task_name = InputState::with_text(name);
        app.planned_start = InputState::with_text(start);
        app.planned_end = InputState::with_text(end);
        app.mode = InputMode::Normal;
        app.popup = Popup::TasksTable(TasksTablePopup::EditTask);
        app.tasks_selected_input = TaskSelectedInput::TaskName;
        app.pending_command = None;
    }
}

/// The templates made from the table's tasks, all with the id `id`.
fn templates_of(tasks: &Vec<TaskInfo>, id: u64) -> (r: Vec<TaskTemplate>)
    ensures
        r@.len() == tasks@.len(),
        forall|k: int| 0 <= k < tasks@.len() ==> {
            &&& (#[trigger] r@[k]).id == id
            &&& r@[k].name == tasks@[k].name
            &&& r@[k].planned_start == Some(tasks@[k].planned_start)
            &&& r@[k].planned_end == Some(tasks@[k].planned_end)
        },
{
    let mut r: Vec<TaskTemplate> = Vec::new();
    let mut k: usize = 0;
    while k < tasks.len()
        invariant
            k <= tasks@.len(),
            r@.len() == k,
            forall|j: int| 0 <= j < k ==> {
                &&& (#[trigger] r@[j]).id == id
                &&& r@[j].name == tasks@[j].name
                &&& r@[j].planned_start == Some(tasks@[j].planned_start)
                &&& r@[j].planned_end == Some(tasks@[j].planned_end)
            },
        decreases tasks@.len() - k,
    {
        r.push(TaskTemplate {
            id,
            name: tasks[k].name.clone(),
            planned_start: Some(tasks[k].planned_start.clone()),
            planned_end: Some(tasks[k].planned_end.clone()),
        });
        k = k + 1;
    }
    r
}

/// A new preset was started from the task table: one template per task,
/// all with the next id, which then advanced by the number of tasks.
pub open spec fn tasks_copied_to_preset(o: App, f: App) -> bool {
    &&& f.preset_tasks@.len() == o.tasks@.len()
    &&& forall|k: int| 0 <= k < o.tasks@.len() ==> {
        &&& (#[trigger] f.preset_tasks@[k]).id == o.next_id
        &&& f.preset_tasks@[k].name == o.tasks@[k].name
        &&& f.preset_tasks@[k].planned_start == Some(o.tasks@[k].planned_start)
        &&& f.preset_tasks@[k].planned_end == Some(o.tasks@[k].planned_end)
    }
    &&& f.next_id == o.next_id + o.tasks@.len()
    &&& is_cleared(f.preset_name)
    &&& f.preset_task_state == (if o.tasks@.len() > 0 {
        crate::selection::SelectionState { selected: Some(0usize), ..o.preset_task_state }
    } else {
        o.preset_task_state
    })
    &&& f == (App {
        preset_tasks: f.preset_tasks,
        next_id: f.next_id,
        preset_task_state: f.preset_task_state,
        preset_name: f.preset_name,
        new_preset_focus: NewPresetFocus::Name,
        popup: Popup::TasksTable(TasksTablePopup::NewPreset),
        pending_command: None,
        ..o
    })
}

/// Starts a new preset from the task table: one template per task, all
/// with the next id, which then advances by the number of tasks.
pub fn add_tasks_to_preset(app: &mut App)
    requires
        old(app).next_id + old(app).tasks@.len() <= u64::MAX,
    ensures
        tasks_copied_to_preset(*old(app), *final(app)),
{
    app.preset_tasks = templates_of(&app.tasks, app.next_id);
    app.next_id = app.next_id + app.preset_tasks.len() as u64;
    if app.preset_tasks.len() > 0 {
        app.preset_task_state.select(Some(0));
    }
    app.preset_name.clear();
    app.new_preset_focus = NewPresetFocus::Name;
    app.popup = Popup::TasksTable(TasksTablePopup::NewPreset);
    app.pending_command = None;
}

/// Opens the presets popup.
pub fn open_presets_popup(app: &mut App)
    ensures
        *final(app) == (App { popup: Popup::TasksTable(TasksTablePopup::Presets), ..*old(app) }),
{
    app.popup = Popup::TasksTable(TasksTablePopup::Presets);
}

/// The table after opening the details of the selected task, if a task
/// is selected.
pub open spec fn task_info_opened(o: App) -> App {
    if o.tasks_table_state.selected is Some {
        App { popup: Popup::TasksTable(TasksTablePopup::TaskInfo), ..o }
    } else {
        o
    }
}

/// Opens the details of the selected task, if a task is selected.
pub fn task_info(app: &mut App)
    ensures
        *final(app) == task_info_opened(*old(app)),
{
    if app.tasks_table_state.selected().is_some() {
        app.popup = Popup::TasksTable(TasksTablePopup::TaskInfo);
    }
}

/// Opens the known-tasks popup.
pub fn open_known_tasks(app: &mut App)
    ensures
        *final(app) == (App { popup: Popup::TasksTable(TasksTablePopup::KnownTasks), ..*old(app) }),
{
    app.popup = Popup::TasksTable(TasksTablePopup::KnownTasks);
}

/// Whether deleting the selected rows of a list stays within it.
pub open spec fn block_in(mode: NavigationMode, visual_start: Option<usize>, sel: Option<usize>, len: int) -> bool {
    sel matches Some(c) ==> (action_block(mode, visual_start, c).1 as int) < len
}

/// The selected task, or in visual mode the selected block, was deleted and
/// the row that took its place selected.
pub open spec fn tasks_deleted(o: App, f: App, store: Option<Store>) -> bool {
    match o.tasks_table_state.selected {
        None => store is None && f == (App { pending_command: None, ..o }),
        Some(c) => {
            let (first, last) = action_block(o.n_mode, o.n_visual_start, c);
            &&& store == Some(Store::Tasks)
            &&& f.tasks@ == without_block(o.tasks@, first as int, last as int)
            &&& f.tasks_table_state.selected == clamped_selection(first as int, f.tasks@.len() as int)
            &&& f == (App {
                tasks: f.tasks,
                tasks_table_state: f.tasks_table_state,
                n_mode: NavigationMode::Normal,
                n_visual_start: None,
                pending_command: None,
                ..o
            })
        },
    }
}

/// Deletes the selected task, or in visual mode the selected block, and
/// selects the row that took its place. Visual mode ends. The pending
/// command is cleared either way; the tasks are to be stored when rows
/// were deleted.
pub fn delete_task(app: &mut App) -> (store: Option<Store>)
    requires
        block_in(old(app).n_mode, old(app).n_visual_start, old(app).tasks_table_state.selected, old(app).tasks@.len() as int),
    ensures
        tasks_deleted(*old(app), *final(app), store),
{
    let mut store = None;
    if let Some(current) = app.tasks_table_state.selected() {
        let (first, last) = action_bounds(app.n_mode, app.n_visual_start, current);
        drain_range(&mut app.tasks, first, last);
        let next = clamp_selection(first, app.tasks.len());
        app.tasks_table_state.select(next);
        app.n_mode = NavigationMode::Normal;
        app.n_visual_start = None;
        store = Some(Store::Tasks);
    }
    app.pending_command = None;
    store
}

/// A task after start/stop at the moment `now`: a running task stops and
/// is marked STOPPED; a stopped one starts, records its first start on the
/// wall clock, and is marked IN PROGRESS.
pub open spec fn toggled(o: TaskInfo, f: TaskInfo, now: Moment) -> bool {
    if o.stopwatch@.0 is Some {
        &&& f.stopwatch@ == (None::<u128>, elapsed_spec(o.stopwatch@, now.tick) as u128)
        &&& f.status@ == "STOPPED"@
        &&& f == (TaskInfo { stopwatch: f.stopwatch, status: f.status, ..o })
    } else {
        &&& f.stopwatch@ == (Some(now.tick), o.stopwatch@.1)
        &&& f.status@ == "IN PROGRESS"@
        &&& f.actual_start == (if o.actual_start is None { Some(now.unix_ms) } else { o.actual_start })
        &&& f == (TaskInfo { stopwatch: f.stopwatch, status: f.status, actual_start: f.actual_start, ..o })
    }
}

/// The selected task, if any, was started or stopped at `now`; nothing
/// else changed.
pub open spec fn started_or_stopped(o: App, f: App, now: Moment) -> bool {
    match o.tasks_table_state.selected {
        None => f == o,
        Some(i) => {
            &&& f.tasks@.len() == o.tasks@.len()
            &&& toggled(o.tasks@[i as int], f.tasks@[i as int], now)
            &&& forall|j: int| 0 <= j < o.tasks@.len() && j != i ==> #[trigger] f.tasks@[j] == o.tasks@[j]
            &&& f == (App { tasks: f.tasks, ..o })
        },
    }
}

fn toggle_task(task: &mut TaskInfo, now: Moment)
    ensures
        toggled(*old(task), *final(task), now),
{
    if task.stopwatch.running() {
        task.stopwatch.stop_at(now.tick);
        task.status = String::from_str("STOPPED");
    } else {
        task.stopwatch.start_at(now.tick);
        if task.actual_start.is_none() {
            task.actual_start = Some(now.unix_ms);
        }
        task.status = String::from_str("IN PROGRESS");
    }
}

/// Starts or stops the selected task's stopwatch at `now`.
pub fn start_stop_at(app: &mut App, now: Moment)
    requires
        row_in(old(app).tasks_table_state.selected, old(app).tasks@.len() as int),
    ensures
        started_or_stopped(*old(app), *final(app), now),
{
    if let Some(index) = app.tasks_table_state.selected() {
        toggle_task(&mut app.tasks[index], now);
    }
}

/// Starts or stops the selected task's stopwatch now on `clock`.
pub fn start_stop(app: &mut App, clock: &mut Clock)
    requires
        row_in(old(app).tasks_table_state.selected, old(app).tasks@.len() as int),
    ensures
        final(clock)@ >= old(clock)@,
        exists|now: Moment| now.tick == final(clock)@ && #[trigger] started_or_stopped(*old(app), *final(app), now),
{
    let now = clock.now();
    start_stop_at(app, now);
    assert(started_or_stopped(*old(app), *app, now));
}


/// The task after completing it at the moment `now`: stopped, ended at
/// `now` on the wall clock, marked COMPLETED.
pub open spec fn completed(o: TaskInfo, f: TaskInfo, now: Moment) -> bool {
    &&& f.stopwatch@ == (None::<u128>, elapsed_spec(o.stopwatch@, now.tick) as u128)
    &&& f.actual_end == Some(now.unix_ms)
    &&& f.status@ == "COMPLETED"@
    &&& f == (TaskInfo { stopwatch: f.stopwatch, actual_end: f.actual_end, status: f.status, ..o })
}

/// The task after a reset: stopwatch cleared, no start or end, PENDING;
/// a hard reset also empties the planned times.
pub open spec fn was_reset(o: TaskInfo, f: TaskInfo, hard: bool) -> bool {
    &&& f.stopwatch@ == (None::<u128>, 0u128)
    &&& f.actual_start is None
    &&& f.actual_end is None
    &&& f.status@ == "PENDING"@
    &&& if hard {
        &&& f.planned_start@ == Seq::<char>::empty()
        &&& f.planned_end@ == Seq::<char>::empty()
        &&& f == (TaskInfo { stopwatch: f.stopwatch, actual_start: None, actual_end: None, status: f.status,
            planned_start: f.planned_start, planned_end: f.planned_end, ..o })
    } else {
        f == (TaskInfo { stopwatch: f.stopwatch, actual_start: None, actual_end: None, status: f.status, ..o })
    }
}

/// Only the selected task changed, as `changed` says.
pub open spec fn only_selected_task(o: App, f: App, changed: spec_fn(TaskInfo, TaskInfo) -> bool) -> bool {
    match o.tasks_table_state.selected {
        None => f == o,
        Some(i) => {
            &&& f.tasks@.len() == o.tasks@.len()
            &&& changed(o.tasks@[i as int], f.tasks@[i as int])
            &&& forall|j: int| 0 <= j < o.tasks@.len() && j != i ==> #[trigger] f.tasks@[j] == o.tasks@[j]
            &&& f == (App { tasks: f.tasks, ..o })
        },
    }
}

/// Only the selected task changed: it was completed at `now`.
pub open spec fn task_completed(o: App, f: App, now: Moment) -> bool {
    only_selected_task(o, f, |a: TaskInfo, b: TaskInfo| completed(a, b, now))
}

fn complete(task: &mut TaskInfo, now: Moment)
    ensures
        completed(*old(task), *final(task), now),
{
    task.stopwatch.stop_at(now.tick);
    task.actual_end = Some(now.unix_ms);
    task.status = String::from_str("COMPLETED");
}

fn reset(task: &mut TaskInfo, hard: bool)
    ensures
        was_reset(*old(task), *final(task), hard),
{
    task.stopwatch.reset();
    task.actual_start = None;
    task.actual_end = None;
    if hard {
        task.planned_start = String::new();
        task.planned_end = String::new();
    }
    task.status = String::from_str("PENDING");
}

/// Completes the selected task at `now`. The tasks are to be stored when a
/// task is selected.
pub fn complete_task_at(app: &mut App, now: Moment) -> (store: Option<Store>)
    requires
        row_in(old(app).tasks_table_state.selected, old(app).tasks@.len() as int),
    ensures
        store == (if old(app).tasks_table_state.selected is Some { Some(Store::Tasks) } else { None }),
        task_completed(*old(app), *final(app), now),
{
    if let Some(index) = app.tasks_table_state.selected() {
        complete(&mut app.tasks[index], now);
        return Some(Store::Tasks);
    }
    None
}

/// Completes the selected task now on `clock`.
pub fn complete_task(app: &mut App, clock: &mut Clock) -> (store: Option<Store>)
    requires
        row_in(old(app).tasks_table_state.selected, old(app).tasks@.len() as int),
    ensures
        final(clock)@ >= old(clock)@,
        store == (if old(app).tasks_table_state.selected is Some { Some(Store::Tasks) } else { None }),
        exists|now: Moment| now.tick == final(clock)@ && #[trigger] task_completed(*old(app), *final(app), now),
{
    let now = clock.now();
    let r = complete_task_at(app, now);
    assert(task_completed(*old(app), *app, now));
    r
}

/// Only the selected task changed: it was reset, hard or not.
pub open spec fn task_reset(o: App, f: App, hard: bool) -> bool {
    only_selected_task(o, f, |a: TaskInfo, b: TaskInfo| was_reset(a, b, hard))
}

/// Resets the selected task: its stopwatch, start and end are cleared and
/// it is PENDING again.
pub fn reset_task(app: &mut App) -> (store: Option<Store>)
    requires
        row_in(old(app).tasks_table_state.selected, old(app).tasks@.len() as int),
    ensures
        store == (if old(app).tasks_table_state.selected is Some { Some(Store::Tasks) } else { None }),
        task_reset(*old(app), *final(app), false),
{
    if let Some(index) = app.tasks_table_state.selected() {
        reset(&mut app.tasks[index], false);
        return Some(Store::Tasks);
    }
    None
}

/// Resets the selected task and also empties its planned times.
pub fn hard_reset_task(app: &mut App) -> (store: Option<Store>)
    requires
        row_in(old(app).tasks_table_state.selected, old(app).tasks@.len() as int),
    ensures
        store == (if old(app).tasks_table_state.selected is Some { Some(Store::Tasks) } else { None }),
        task_reset(*old(app), *final(app), true),
{
    if let Some(index) = app.tasks_table_state.selected() {
        reset(&mut app.tasks[index], true);
        return Some(Store::Tasks);
    }
    None
}

/// In visual mode, a move of the selected block of tasks started.
pub open spec fn task_move_started(o: App, g: App) -> bool {
    &&& o.n_mode != NavigationMode::Visual ==> g == o
    &&& o.n_mode == NavigationMode::Visual ==> {
        &&& g == (App { move_state: g.move_state, ..o })
        &&& match o.tasks_table_state.selected {
            None => g.move_state == o.move_state,
            Some(index) => if o.tasks@.len() == 0 {
                g.move_state == o.move_state
            } else {
                let (f, l) = move_items::block_bounds(index, o.n_visual_start);
                &&& g.move_state.first == Some(f)
                &&& g.move_state.last == Some(l)
                &&& g.move_state.target == Some(MoveTarget::Tasks)
                &&& g.move_state.position == Some(move_items::start_position(index as int, f as int, l as int, o.tasks@.len() as int) as usize)
            },
        }
    }
}

/// In visual mode, starts moving the selected block of tasks.
pub fn move_tasks(app: &mut App)
    requires
        start_in_range(old(app).tasks_table_state.selected, old(app).n_visual_start),
    ensures
        task_move_started(*old(app), *final(app)),
{
    if app.n_mode == NavigationMode::Visual {
        let selected = app.tasks_table_state.selected();
        let len = app.tasks.len();
        move_items::start(&mut app.move_state, selected, app.n_visual_start, len, MoveTarget::Tasks);
    }
}

/// On the first frame after start-up, tasks that were IN PROGRESS when the
/// planner closed are marked STOPPED.
pub fn stop_in_progress_tasks(app: &mut App)
    ensures
        final(app).tasks@.len() == old(app).tasks@.len(),
        forall|j: int| 0 <= j < old(app).tasks@.len() ==> if old(app).tasks@[j].status@ == "IN PROGRESS"@ {
            &&& (#[trigger] final(app).tasks@[j]).status@ == "STOPPED"@
            &&& final(app).tasks@[j] == (TaskInfo { status: final(app).tasks@[j].status, ..old(app).tasks@[j] })
        } else {
            final(app).tasks@[j] == old(app).tasks@[j]
        },
        *final(app) == (App { tasks: final(app).tasks, ..*old(app) }),
{
    let in_progress = String::from_str("IN PROGRESS");
    let mut i: usize = 0;
    while i < app.tasks.len()
        invariant
            i <= app.tasks@.len(),
            in_progress@ == "IN PROGRESS"@,
            app.tasks@.len() == old(app).tasks@.len(),
            *app == (App { tasks: app.tasks, ..*old(app) }),
            forall|j: int| 0 <= j < i ==> if old(app).tasks@[j].status@ == "IN PROGRESS"@ {
                &&& (#[trigger] app.tasks@[j]).status@ == "STOPPED"@
                &&& app.tasks@[j] == (TaskInfo { status: app.tasks@[j].status, ..old(app).tasks@[j] })
            } else {
                app.tasks@[j] == old(app).tasks@[j]
            },
            forall|j: int| i <= j < app.tasks@.len() ==> #[trigger] app.tasks@[j] == old(app).tasks@[j],
        decreases app.tasks@.len() - i,
    {
        if app.tasks[i].status == in_progress {
            app.tasks[i].status = String::from_str("STOPPED");
        }
        i = i + 1;
    }
}

/// The total time of the tasks' stopwatches at `now`.
pub open spec fn elapsed_sum(tasks: Seq<TaskInfo>, now: u128) -> int
    decreases tasks.len(),
{
    if tasks.len() == 0 { 0 } else { elapsed_sum(tasks.drop_last(), now) + elapsed_spec(tasks.last().stopwatch@, now) }
}

proof fn lemma_elapsed_sum_nonneg(tasks: Seq<TaskInfo>, now: u128)
    ensures
        elapsed_sum(tasks, now) >= 0,
    decreases tasks.len(),
{
    if tasks.len() > 0 {
        lemma_elapsed_sum_nonneg(tasks.drop_last(), now);
    }
}

/// The total time of the tasks' stopwatches at `now`, at most `u128::MAX`.
pub open spec fn total_at(tasks: Seq<TaskInfo>, now: u128) -> int {
    if elapsed_sum(tasks, now) <= u128::MAX { elapsed_sum(tasks, now) } else { u128::MAX as int }
}

/// The total time of the tasks' stopwatches at `now`, in milliseconds, at
/// most `u128::MAX`.
pub fn total_elapsed_at(app: &App, now: u128) -> (r: u128)
    ensures
        r == total_at(app.tasks@, now),
{
    let mut total: u128 = 0;
    let mut i: usize = 0;
    while i < app.tasks.len()
        invariant
            i <= app.tasks@.len(),
            total == (if elapsed_sum(app.tasks@.take(i as int), now) <= u128::MAX { elapsed_sum(app.tasks@.take(i as int), now) } else { u128::MAX as int }),
        decreases app.tasks@.len() - i,
    {
        assert(app.tasks@.take(i + 1).drop_last() =~= app.tasks@.take(i as int));
        proof { lemma_elapsed_sum_nonneg(app.tasks@.take(i as int), now); }
        let e = app.tasks[i].stopwatch.elapsed_at(now);
        total = if total <= u128::MAX - e { total + e } else { u128::MAX };
        i = i + 1;
    }
    assert(app.tasks@.take(app.tasks@.len() as int) =~= app.tasks@);
    total
}

/// The total time of the tasks' stopwatches now on `clock`, in
/// milliseconds, at most `u128::MAX`.
pub fn total_elapsed(app: &App, clock: &mut Clock) -> (r: u128)
    ensures
        final(clock)@ >= old(clock)@,
        r == total_at(app.tasks@, final(clock)@),
{
    let now = clock.tick();
    total_elapsed_at(app, now)
}

} // verus!
