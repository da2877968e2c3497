//! The planner's state and the actions that change it.
use vstd::prelude::*;
use crate::agenda::{AgendaEvent, DateTimeInput};
use crate::dates::Date;
use crate::inbox::InboxItemInfo;
use crate::models::{KnownTask, Preset, TaskTemplate, copy_opt_string, duplicate_templates};
use crate::move_items::MoveState;
use crate::search::SearchState;
use crate::selection::{Selectable, SelectionState};
use crate::stopwatch::Stopwatch;
use crate::tasks::TaskInfo;
use crate::text_input::InputState;
use crate::timers::{DurationInput, TimerInfo};
use crate::types::{
    AgendaSelectedInput, InboxSelectedInput, InputMode, NavigationMode, NewPresetFocus, Panel,
    Popup, Priority, TaskDestination, TaskSelectedInput, TasksTablePopup, TimerSelectedInput,
};

verus! {

/// A store that an action changed and that must be written out.
#[derive(Clone, Copy, Debug, PartialEq, Eq, Structural)]
pub enum Store {
    Tasks,
    Presets,
    KnownTasks,
    Inbox,
    Agenda,
    Timers,
}

/// How putting a text on the clipboard went.
#[derive(Debug, PartialEq, Eq)]
pub enum CopyOutcome {
    /// There is no clipboard.
    Unavailable,
    /// The text was written and read back.
    Copied,
    /// The text was written but could not be read back.
    Unverified,
    /// Writing failed, with this error text.
    Failed(String),
}

/// The status line after copying.
pub open spec fn copy_message(outcome: CopyOutcome) -> Seq<char> {
    match outcome {
        CopyOutcome::Unavailable => "Clipboard unavailable"@,
        CopyOutcome::Copied => "Copied to clipboard"@,
        CopyOutcome::Unverified => "Copied, but clipboard could not be verified"@,
        CopyOutcome::Failed(e) => "Copy failed: "@ + e@,
    }
}

/// The whole state of the planner.
pub struct App {
    // Core
    pub running: bool,
    pub popup: Popup,
    pub last_popup: Popup,
    pub pending_command: Option<char>,

    // Modes
    pub mode: InputMode,
    pub n_mode: NavigationMode,
    pub n_visual_start: Option<usize>,

    // Panels
    pub focused_panel: Panel,
    pub previous_panel: Panel,
    pub is_change: bool,
    pub search_panel: Option<Panel>,

    // Task table
    pub tasks: Vec<TaskInfo>,
    pub tasks_table_state: SelectionState,
    pub task_name: InputState,
    pub planned_start: InputState,
    pub planned_end: InputState,
    pub tasks_selected_input: TaskSelectedInput,

    // Inbox
    pub inbox_items: Vec<InboxItemInfo>,
    pub inbox_tasks_table_state: SelectionState,
    pub inbox_item: InputState,
    pub inbox_selected_input: InboxSelectedInput,
    pub priority: Priority,
    pub inbox_search: SearchState,

    // Agenda
    pub event_name: InputState,
    pub event_date: DateTimeInput,
    pub event_time: DateTimeInput,
    pub events: Vec<AgendaEvent>,
    pub agenda_table_state: SelectionState,
    pub all_events_table_state: SelectionState,
    pub agenda_selected_input: AgendaSelectedInput,
    pub event_repeat: bool,
    pub agenda_search: SearchState,

    // Timers
    pub timers: Vec<TimerInfo>,
    pub timers_list_state: SelectionState,
    pub timer_name: InputState,
    pub timer_duration: DurationInput,
    pub timer_selected_input: TimerSelectedInput,

    // Presets
    pub presets: Vec<Preset>,
    pub preset_state: SelectionState,
    pub preset_tasks: Vec<TaskTemplate>,
    pub preset_task_state: SelectionState,
    pub preset_name: InputState,
    pub edit_preset: Option<usize>,
    pub new_preset_focus: NewPresetFocus,
    pub task_destination: TaskDestination,

    // Known tasks
    pub known_tasks: Vec<KnownTask>,
    pub known_tasks_state: SelectionState,
    pub known_task_name: InputState,
    pub suggestions: Vec<String>,
    pub selected_suggestion: usize,

    // Misc
    pub last_agenda_update: Date,
    pub move_state: MoveState,
    pub help_scroll: u16,
    pub next_id: u64,

    // Notifications
    pub status_message: Option<String>,
    pub status_message_until: Option<u64>,
}

/// A text field emptied.
pub open spec fn is_cleared(i: InputState) -> bool {
    i.text@ == Seq::<char>::empty() && i.cursor == 0
}

/// A text field holding `t` with the cursor at its end.
pub open spec fn holds_text(i: InputState, t: Seq<char>) -> bool {
    i.text@ == t && i.cursor == t.len()
}

/// A new text from a literal.
fn text_of(s: &str) -> (r: String)
    ensures
        r@ == s@,
{
    String::from_str(s)
}

/// A field holding a copy of `t`, the cursor at its end.
fn field_with(t: &String) -> (r: InputState)
    requires
        t@.len() < usize::MAX,
    ensures
        holds_text(r, t@),
{
    InputState::with_text(t.clone())
}

/// A copy of an optional text, or an empty text.
fn text_or_empty(s: &Option<String>) -> (r: String)
    ensures
        r@ == (match s { Some(t) => t@, None => Seq::<char>::empty() }),
{
    match s {
        Some(t) => t.clone(),
        None => String::new(),
    }
}

/// The task popup's fields and the suggestions were emptied, and nothing
/// else but the listed fields changed.
pub open spec fn task_fields_cleared(a: App) -> bool {
    &&& is_cleared(a.task_name)
    &&& is_cleared(a.planned_start)
    &&& is_cleared(a.planned_end)
    &&& a.suggestions@.len() == 0
    &&& a.selected_suggestion == 0
}

/// The task popup was saved to its destination.
pub open spec fn task_popup_saved(o: App, f: App) -> bool {
    match o.task_destination {
        TaskDestination::Preset => task_saved_to_preset(o, f),
        TaskDestination::AddTask => task_saved_to_table(o, f),
        TaskDestination::EditTask(i) => task_edit_saved(o, f, i),
        TaskDestination::EditPresetTask(i) => preset_task_edit_saved(o, f, i),
    }
}

/// What saving the task popup needs of the machine: a fresh template id
/// and room after the selected template when adding to a preset, room
/// after the selected row when adding to the table.
pub open spec fn task_save_fits(a: App) -> bool {
    match a.task_destination {
        TaskDestination::Preset => {
            &&& a.next_id < u64::MAX
            &&& a.preset_task_state.selected matches Some(i) ==> i < usize::MAX
        },
        TaskDestination::AddTask => a.tasks_table_state.selected matches Some(i) ==> i < usize::MAX,
        _ => true,
    }
}

/// The planner after closing the task popup: back to the table when adding
/// or editing a task, back to the preset popup when working on a preset.
pub open spec fn task_popup_closed(o: App) -> App {
    App {
        popup: match o.task_destination {
            TaskDestination::AddTask | TaskDestination::EditTask(_) => Popup::Closed,
            TaskDestination::Preset | TaskDestination::EditPresetTask(_) => Popup::TasksTable(TasksTablePopup::NewPreset),
        },
        ..o
    }
}

/// The task popup opened with empty fields, to add a task to
/// `destination`.
pub open spec fn task_popup_opened(o: App, f: App, destination: TaskDestination) -> bool {
    &&& is_cleared(f.task_name)
    &&& is_cleared(f.planned_start)
    &&& is_cleared(f.planned_end)
    &&& f == (App {
        task_destination: destination,
        task_name: f.task_name,
        planned_start: f.planned_start,
        planned_end: f.planned_end,
        tasks_selected_input: TaskSelectedInput::TaskName,
        mode: InputMode::Insert,
        popup: Popup::TasksTable(TasksTablePopup::AddTask),
        ..o
    })
}

/// Where a saved row goes: right after the selected row, or first when
/// nothing is selected, but never past the end.
pub open spec fn insert_position(selected: Option<usize>, len: int) -> int {
    let pos: int = match selected { Some(i) => i + 1, None => 0 };
    if pos < len { pos } else { len }
}

/// The popup's task went into the preset being edited as a new template.
pub open spec fn task_saved_to_preset(o: App, f: App) -> bool {
    let at = insert_position(o.preset_task_state.selected, o.preset_tasks@.len() as int);
    let t = f.preset_tasks@[at];
    &&& task_fields_cleared(f)
    &&& f.preset_tasks@ == o.preset_tasks@.insert(at, t)
    &&& t.id == o.next_id
    &&& t.name == o.task_name.text
    &&& t.planned_start == Some(o.planned_start.text)
    &&& t.planned_end == Some(o.planned_end.text)
    &&& f.preset_task_state.selected == Some(at as usize)
    &&& f.next_id == o.next_id + 1
    &&& f == (App {
        next_id: f.next_id,
        preset_tasks: f.preset_tasks,
        preset_task_state: f.preset_task_state,
        mode: f.mode,
        popup: f.popup,
        task_name: f.task_name,
        planned_start: f.planned_start,
        planned_end: f.planned_end,
        suggestions: f.suggestions,
        selected_suggestion: 0,
        ..o
    })
    &&& f.mode == InputMode::Normal
    &&& f.popup == Popup::TasksTable(TasksTablePopup::NewPreset)
}

/// The popup's task went into the table as a new pending task.
pub open spec fn task_saved_to_table(o: App, f: App) -> bool {
    let at = insert_position(o.tasks_table_state.selected, o.tasks@.len() as int);
    let t = f.tasks@[at];
    &&& task_fields_cleared(f)
    &&& f.tasks@ == o.tasks@.insert(at, t)
    &&& t.name == o.task_name.text
    &&& t.status@ == "PENDING"@
    &&& t.planned_start == o.planned_start.text
    &&& t.planned_end == o.planned_end.text
    &&& t.actual_start is None && t.actual_end is None
    &&& t.stopwatch@ == (None::<u128>, 0u128)
    &&& f.tasks_table_state.selected == Some(at as usize)
    &&& f == (App {
        tasks: f.tasks,
        tasks_table_state: f.tasks_table_state,
        task_name: f.task_name,
        planned_start: f.planned_start,
        planned_end: f.planned_end,
        suggestions: f.suggestions,
        selected_suggestion: 0,
        ..o
    })
}

/// The edited task `i` took the popup's name and planned times, if it
/// exists, and the popup closed.
pub open spec fn task_edit_saved(o: App, f: App, i: usize) -> bool {
    &&& task_fields_cleared(f)
    &&& if (i as int) < o.tasks@.len() {
        &&& f.tasks@ == o.tasks@.update(i as int, TaskInfo {
            name: o.task_name.text,
            planned_start: o.planned_start.text,
            planned_end: o.planned_end.text,
            ..o.tasks@[i as int]
        })
        &&& f == (App {
            tasks: f.tasks,
            popup: Popup::Closed,
            task_name: f.task_name,
            planned_start: f.planned_start,
            planned_end: f.planned_end,
            suggestions: f.suggestions,
            selected_suggestion: 0,
            ..o
        })
    } else {
        f == (App {
            task_name: f.task_name,
            planned_start: f.planned_start,
            planned_end: f.planned_end,
            suggestions: f.suggestions,
            selected_suggestion: 0,
            ..o
        })
    }
}

/// The edited template `i` of the preset took the popup's name and planned
/// times, if it exists, and the preset popup shows again.
pub open spec fn preset_task_edit_saved(o: App, f: App, i: usize) -> bool {
    &&& task_fields_cleared(f)
    &&& if (i as int) < o.preset_tasks@.len() {
        &&& f.preset_tasks@ == o.preset_tasks@.update(i as int, TaskTemplate {
            name: o.task_name.text,
            planned_start: Some(o.planned_start.text),
            planned_end: Some(o.planned_end.text),
            ..o.preset_tasks@[i as int]
        })
        &&& f == (App {
            preset_tasks: f.preset_tasks,
            popup: Popup::TasksTable(TasksTablePopup::NewPreset),
            task_name: f.task_name,
            planned_start: f.planned_start,
            planned_end: f.planned_end,
            suggestions: f.suggestions,
            selected_suggestion: 0,
            ..o
        })
    } else {
        f == (App {
            task_name: f.task_name,
            planned_start: f.planned_start,
            planned_end: f.planned_end,
            suggestions: f.suggestions,
            selected_suggestion: 0,
            ..o
        })
    }
}

/// Inserts `row` right after the selected row (first when nothing is
/// selected, never past the end) and selects it: the insert position,
/// clamped to the last row.
fn insert_row<T>(rows: &mut Vec<T>, state: &mut SelectionState, row: T)
    requires
        old(state).selected matches Some(i) ==> i < usize::MAX,
    ensures
        final(rows)@ == old(rows)@.insert(insert_position(old(state).selected, old(rows)@.len() as int), row),
        final(state).selected == Some(insert_position(old(state).selected, old(rows)@.len() as int) as usize),
        final(state).offset == old(state).offset,
{
    let position = match state.selected() {
        Some(index) => index + 1,
        None => 0,
    };
    let at = if position < rows.len() { position } else { rows.len() };
    rows.insert(at, row);
    let last = rows.len() - 1;
    state.select(Some(if position < last { position } else { last }));
}

/// The empty date `00-00-YY` for the year of `today`.
fn date_placeholder(today: Date) -> (r: String)
    ensures
        r@ == seq!['0', '0', '-', '0', '0', '-'] + crate::text::two_digits(crate::dates::year_of_century(today.year as int)),
{
    let yy = (today.year % 100 + 100) % 100;
    let year = crate::text::format_two_digits(yy as u64);
    let mut date_value = text_of("00-00-");
    date_value.append(year.as_str());
    proof { reveal_strlit("00-00-"); }
    date_value
}

impl App {
    /// The planner as it starts: the stored lists, the first row of each
    /// list selected, no popup, the task table focused, and the date field
    /// set to `00-00-YY` for the current year.
    pub fn new(
        tasks: Vec<TaskInfo>,
        inbox_items: Vec<InboxItemInfo>,
        events: Vec<AgendaEvent>,
        presets: Vec<Preset>,
        known_tasks: Vec<KnownTask>,
        timers: Vec<TimerInfo>,
        today: Date,
    ) -> (app: App)
        ensures
            app.running,
            app.popup == Popup::Closed,
            app.tasks == tasks,
            app.inbox_items == inbox_items,
            app.events == events,
            app.presets == presets,
            app.known_tasks == known_tasks,
            app.timers == timers,
            app.tasks_table_state.selected == Some(0usize),
            app.preset_state.selected == Some(0usize),
            app.preset_task_state.selected == Some(0usize),
            app.known_tasks_state.selected == Some(0usize),
            app.inbox_tasks_table_state.selected == Some(0usize),
            app.agenda_table_state.selected == Some(0usize),
            app.focused_panel == Panel::TasksTable,
            app.mode == InputMode::Insert,
            app.n_mode == NavigationMode::Normal,
            app.n_visual_start == Some(0usize),
            app.next_id == 1,
            app.last_agenda_update == today,
            app.event_date.value@ == seq!['0', '0', '-', '0', '0', '-'] + crate::text::two_digits(crate::dates::year_of_century(today.year as int)),
            app.event_time.value@ == "00:00"@,
            app.last_popup == Popup::Closed,
            app.pending_command is None,
            app.previous_panel == Panel::TasksTable,
            app.is_change,
            app.search_panel is None,
            app.move_state == crate::move_items::idle_move(),
            app.status_message is None,
            app.status_message_until is None,
            app.suggestions@.len() == 0,
            app.selected_suggestion == 0,
            app.task_destination == TaskDestination::AddTask,
            app.edit_preset is None,
            app.preset_tasks@.len() == 0,
            app.new_preset_focus == NewPresetFocus::Name,
            app.help_scroll == 0,
            app.priority == Priority::Low,
            app.event_repeat == false,
            app.tasks_selected_input == TaskSelectedInput::TaskName,
            app.inbox_selected_input == InboxSelectedInput::InboxItemInput,
            app.agenda_selected_input == AgendaSelectedInput::Name,
            app.timer_selected_input == TimerSelectedInput::Name,
            app.timers_list_state.selected == Some(0usize),
            app.all_events_table_state.selected == Some(0usize),
            is_cleared(app.task_name),
            is_cleared(app.planned_start),
            is_cleared(app.planned_end),
            is_cleared(app.inbox_item),
            is_cleared(app.event_name),
            is_cleared(app.timer_name),
            is_cleared(app.preset_name),
            is_cleared(app.known_task_name),
            app.inbox_search.query@.len() == 0 && app.inbox_search.matches@.len() == 0,
            app.agenda_search.query@.len() == 0 && app.agenda_search.matches@.len() == 0,
            app.event_date.cursor == 0,
            app.event_date.editable_positions@ == seq![0usize, 1, 3, 4, 6, 7],
            app.event_time.cursor == 0,
            app.event_time.editable_positions@ == seq![0usize, 1, 3, 4],
            app.timer_duration.value@ == "00:00:00"@,
            app.timer_duration.cursor == 0,
    {
        let date_value = date_placeholder(today);
        let mut date_positions: Vec<usize> = Vec::new();
        date_positions.push(0);
        date_positions.push(1);
        date_positions.push(3);
        date_positions.push(4);
        date_positions.push(6);
        date_positions.push(7);
        let mut time_positions: Vec<usize> = Vec::new();
        time_positions.push(0);
        time_positions.push(1);
        time_positions.push(3);
        time_positions.push(4);
        App {
            running: true,
            popup: Popup::Closed,
            last_popup: Popup::Closed,
            pending_command: None,
            mode: InputMode::Insert,
            n_mode: NavigationMode::Normal,
            n_visual_start: Some(0),
            focused_panel: Panel::TasksTable,
            previous_panel: Panel::TasksTable,
            is_change: true,
            search_panel: None,
            tasks,
            tasks_table_state: SelectionState::with_selected(Some(0)),
            task_name: InputState::new(),
            planned_start: InputState::new(),
            planned_end: InputState::new(),
            tasks_selected_input: TaskSelectedInput::TaskName,
            inbox_items,
            inbox_tasks_table_state: SelectionState::with_selected(Some(0)),
            inbox_item: InputState::new(),
            inbox_selected_input: InboxSelectedInput::InboxItemInput,
            priority: Priority::Low,
            inbox_search: SearchState::default(),
            event_name: InputState::new(),
            event_date: DateTimeInput { value: date_value, cursor: 0, editable_positions: date_positions },
            event_time: DateTimeInput { value: text_of("00:00"), cursor: 0, editable_positions: time_positions },
            events,
            agenda_table_state: SelectionState::with_selected(Some(0)),
            all_events_table_state: SelectionState::with_selected(Some(0)),
            agenda_selected_input: AgendaSelectedInput::Name,
            event_repeat: false,
            agenda_search: SearchState::default(),
            timers,
            timers_list_state: SelectionState::with_selected(Some(0)),
            timer_name: InputState::new(),
            timer_duration: DurationInput { value: text_of("00:00:00"), cursor: 0 },
            timer_selected_input: TimerSelectedInput::Name,
            presets,
            preset_state: SelectionState::with_selected(Some(0)),
            preset_tasks: Vec::new(),
            preset_task_state: SelectionState::with_selected(Some(0)),
            preset_name: InputState::new(),
            edit_preset: None,
            new_preset_focus: NewPresetFocus::Name,
            task_destination: TaskDestination::AddTask,
            known_tasks,
            known_tasks_state: SelectionState::with_selected(Some(0)),
            known_task_name: InputState::new(),
            suggestions: Vec::new(),
            selected_suggestion: 0,
            last_agenda_update: today,
            move_state: MoveState::default(),
            help_scroll: 0,
            next_id: 1,
            status_message: None,
            status_message_until: None,
        }
    }

    /// Shows `message` in the status line for one second from `now`.
    pub fn set_status_message_at(&mut self, message: String, now: u64)
        ensures
            *final(self) == (App {
                status_message: Some(message),
                status_message_until: Some(crate::stopwatch::sat_add(now as int, 1000) as u64),
                ..*old(self)
            }),
    {
        self.status_message = Some(message);
        self.status_message_until = Some(if now <= u64::MAX - 1000 { now + 1000 } else { u64::MAX });
    }

    /// Shows `message` in the status line for one second.
    pub fn set_status_message(&mut self, message: String)
        ensures
            exists|now: u64| *final(self) == (App {
                status_message: Some(message),
                status_message_until: Some(#[trigger] crate::stopwatch::sat_add(now as int, 1000) as u64),
                ..*old(self)
            }),
    {
        let now = crate::clock::now_millis();
        self.set_status_message_at(message, now);
    }

    // =================== Popups of the task table ===================

    /// Opens the task popup with empty fields, to add a task to
    /// `destination`.
    pub fn task_add(&mut self, destination: TaskDestination)
        ensures
            task_popup_opened(*old(self), *final(self), destination),
    {
        self.task_destination = destination;
        self.task_name.clear();
        self.planned_start.clear();
        self.planned_end.clear();
        self.tasks_selected_input = TaskSelectedInput::TaskName;
        self.mode = InputMode::Insert;
        self.popup = Popup::TasksTable(TasksTablePopup::AddTask);
    }

    /// Opens the new-preset popup with an empty name and no tasks.
    pub fn create_preset(&mut self)
        ensures
            is_cleared(final(self).preset_name),
            final(self).preset_tasks@.len() == 0,
            *final(self) == (App {
                preset_name: final(self).preset_name,
                preset_tasks: final(self).preset_tasks,
                mode: InputMode::Insert,
                popup: Popup::TasksTable(TasksTablePopup::NewPreset),
                new_preset_focus: NewPresetFocus::Name,
                ..*old(self)
            }),
    {
        self.preset_name.clear();
        self.preset_tasks.clear();
        self.mode = InputMode::Insert;
        self.popup = Popup::TasksTable(TasksTablePopup::NewPreset);
        self.new_preset_focus = NewPresetFocus::Name;
    }

    /// Opens the selected preset for editing: its name and a copy of its
    /// tasks go into the preset popup.
    pub fn edit_preset(&mut self)
        requires
            old(self).preset_state.selected matches Some(i) ==> (i as int) < old(self).presets@.len()
                && old(self).presets@[i as int].name@.len() < usize::MAX,
        ensures
            match old(self).preset_state.selected {
                None => *final(self) == *old(self),
                Some(i) => {
                    &&& holds_text(final(self).preset_name, old(self).presets@[i as int].name@)
                    &&& final(self).preset_tasks@ == old(self).presets@[i as int].tasks@
                    &&& *final(self) == (App {
                        edit_preset: Some(i),
                        preset_name: final(self).preset_name,
                        preset_tasks: final(self).preset_tasks,
                        popup: Popup::TasksTable(TasksTablePopup::NewPreset),
                        mode: InputMode::Normal,
                        new_preset_focus: NewPresetFocus::Name,
                        ..*old(self)
                    })
                },
            },
    {
        if let Some(index) = self.preset_state.selected() {
            self.edit_preset = Some(index);
            self.preset_name = field_with(&self.presets[index].name);
            self.preset_tasks = duplicate_templates(&self.presets[index].tasks);
            self.popup = Popup::TasksTable(TasksTablePopup::NewPreset);
            self.mode = InputMode::Normal;
            self.new_preset_focus = NewPresetFocus::Name;
        }
    }

    /// Opens the selected task of the preset being edited in the task popup.
    pub fn edit_preset_task(&mut self)
        requires
            old(self).preset_task_state.selected matches Some(i) ==> (i as int) < old(self).preset_tasks@.len()
                && old(self).preset_tasks@[i as int].name@.len() < usize::MAX
                && (old(self).preset_tasks@[i as int].planned_start matches Some(t) ==> t@.len() < usize::MAX)
                && (old(self).preset_tasks@[i as int].planned_end matches Some(t) ==> t@.len() < usize::MAX),
        ensures
            match old(self).preset_task_state.selected {
                None => *final(self) == *old(self),
                Some(i) => {
                    let t = old(self).preset_tasks@[i as int];
                    &&& holds_text(final(self).task_name, t.name@)
                    &&& holds_text(final(self).planned_start, match t.planned_start { Some(s) => s@, None => Seq::empty() })
                    &&& holds_text(final(self).planned_end, match t.planned_end { Some(s) => s@, None => Seq::empty() })
                    &&& *final(self) == (App {
                        popup: Popup::TasksTable(TasksTablePopup::AddTask),
                        task_destination: TaskDestination::EditPresetTask(i),
                        task_name: final(self).task_name,
                        planned_start: final(self).planned_start,
                        planned_end: final(self).planned_end,
                        mode: InputMode::Normal,
                        tasks_selected_input: TaskSelectedInput::TaskName,
                        ..*old(self)
                    })
                },
            },
    {
        if let Some(index) = self.preset_task_state.selected() {
            self.popup = Popup::TasksTable(TasksTablePopup::AddTask);
            self.task_destination = TaskDestination::EditPresetTask(index);
            let name = self.preset_tasks[index].name.clone();
            let start = text_or_empty(&self.preset_tasks[index].planned_start);
            let end = text_or_empty(&self.preset_tasks[index].planned_end);
            self.task_name = InputState::with_text(name);
            self.planned_start = InputState::with_text(start);
            self.planned_end = InputState::with_text(end);
            self.mode = InputMode::Normal;
            self.tasks_selected_input = TaskSelectedInput::TaskName;
        }
    }

    /// Opens the popup to add a known task, with an empty name.
    pub fn add_known_task(&mut self)
        ensures
            is_cleared(final(self).known_task_name),
            *final(self) == (App {
                known_task_name: final(self).known_task_name,
                mode: InputMode::Insert,
                popup: Popup::TasksTable(TasksTablePopup::AddKnownTask),
                ..*old(self)
            }),
    {
        self.known_task_name.clear();
        self.mode = InputMode::Insert;
        self.popup = Popup::TasksTable(TasksTablePopup::AddKnownTask);
    }

    /// Opens the selected known task for editing. The field's cursor stays
    /// where it was.
    pub fn edit_known_task(&mut self)
        requires
            old(self).known_tasks_state.selected matches Some(i) ==> (i as int) < old(self).known_tasks@.len(),
        ensures
            match old(self).known_tasks_state.selected {
                None => *final(self) == *old(self),
                Some(i) => {
                    &&& final(self).known_task_name.text == old(self).known_tasks@[i as int].name
                    &&& final(self).known_task_name.cursor == old(self).known_task_name.cursor
                    &&& *final(self) == (App {
                        known_task_name: final(self).known_task_name,
                        mode: InputMode::Insert,
                        popup: Popup::TasksTable(TasksTablePopup::EditKnownTask(i)),
                        ..*old(self)
                    })
                },
            },
    {
        if let Some(index) = self.known_tasks_state.selected() {
            self.known_task_name.text = self.known_tasks[index].name.clone();
            self.mode = InputMode::Insert;
            self.popup = Popup::TasksTable(TasksTablePopup::EditKnownTask(index));
        }
    }

    // =================== Saving from the popups ===================

    /// Empties the three fields of the task popup and the suggestions.
    fn clear_task_fields(&mut self)
        ensures
            is_cleared(final(self).task_name),
            is_cleared(final(self).planned_start),
            is_cleared(final(self).planned_end),
            final(self).suggestions@.len() == 0,
            *final(self) == (App {
                task_name: final(self).task_name,
                planned_start: final(self).planned_start,
                planned_end: final(self).planned_end,
                suggestions: final(self).suggestions,
                selected_suggestion: 0,
                ..*old(self)
            }),
    {
        self.task_name.clear();
        self.planned_start.clear();
        self.planned_end.clear();
        self.suggestions.clear();
        self.selected_suggestion = 0;
    }

    fn save_to_preset(&mut self)
        requires
            old(self).next_id < u64::MAX,
            old(self).preset_task_state.selected matches Some(i) ==> i < usize::MAX,
        ensures
            task_saved_to_preset(*old(self), *final(self)),
    {
        let id = self.next_id;
        let preset_task = TaskTemplate {
            id,
            name: self.task_name.text.clone(),
            planned_start: Some(self.planned_start.text.clone()),
            planned_end: Some(self.planned_end.text.clone()),
        };
        insert_row(&mut self.preset_tasks, &mut self.preset_task_state, preset_task);
        self.next_id = id + 1;
        self.mode = InputMode::Normal;
        self.popup = Popup::TasksTable(TasksTablePopup::NewPreset);
        self.clear_task_fields();
    }

    fn save_new_task(&mut self)
        requires
            old(self).tasks_table_state.selected matches Some(i) ==> i < usize::MAX,
        ensures
            task_saved_to_table(*old(self), *final(self)),
    {
        let task = TaskInfo {
            name: self.task_name.text.clone(),
            status: text_of("PENDING"),
            planned_start: self.planned_start.text.clone(),
            planned_end: self.planned_end.text.clone(),
            actual_start: None,
            actual_end: None,
            stopwatch: Stopwatch::new(),
        };
        insert_row(&mut self.tasks, &mut self.tasks_table_state, task);
        self.clear_task_fields();
    }

    fn save_edited_task(&mut self, index: usize)
        ensures
            task_edit_saved(*old(self), *final(self), index),
    {
        let ghost o = *self;
        if index < self.tasks.len() {
            self.tasks[index].name = self.task_name.text.clone();
            self.tasks[index].planned_start = self.planned_start.text.clone();
            self.tasks[index].planned_end = self.planned_end.text.clone();
            assert(self.tasks@ =~= o.tasks@.update(index as int, TaskInfo {
                name: o.task_name.text,
                planned_start: o.planned_start.text,
                planned_end: o.planned_end.text,
                ..o.tasks@[index as int]
            }));
            self.popup = Popup::Closed;
        }
        self.clear_task_fields();
    }

    fn save_edited_preset_task(&mut self, index: usize)
        ensures
            preset_task_edit_saved(*old(self), *final(self), index),
    {
        let ghost o = *self;
        if index < self.preset_tasks.len() {
            self.preset_tasks[index].name = self.task_name.text.clone();
            self.preset_tasks[index].planned_start = Some(self.planned_start.text.clone());
            self.preset_tasks[index].planned_end = Some(self.planned_end.text.clone());
            assert(self.preset_tasks@ =~= o.preset_tasks@.update(index as int, TaskTemplate {
                name: o.task_name.text,
                planned_start: Some(o.planned_start.text),
                planned_end: Some(o.planned_end.text),
                ..o.preset_tasks@[index as int]
            }));
            self.popup = Popup::TasksTable(TasksTablePopup::NewPreset);
        }
        self.clear_task_fields();
    }

    /// Saves the task popup to its destination: a new task template right
    /// after the selected one in the preset being edited, a new pending task
    /// right after the selected row of the table, or the edited task or
    /// template. Then the fields and suggestions are cleared; the task table
    /// is to be stored.
    pub fn save_task(&mut self) -> (store: Store)
        requires
            task_save_fits(*old(self)),
        ensures
            store == Store::Tasks,
            task_popup_saved(*old(self), *final(self)),
    {
        match self.task_destination {
            TaskDestination::Preset => self.save_to_preset(),
            TaskDestination::AddTask => self.save_new_task(),
            TaskDestination::EditTask(index) => self.save_edited_task(index),
            TaskDestination::EditPresetTask(index) => self.save_edited_preset_task(index),
        }
        Store::Tasks
    }

    /// Whether the machine has room to save the task popup.
    pub fn can_save_task(&self) -> (r: bool)
        ensures
            r == task_save_fits(*self),
    {
        match self.task_destination {
            TaskDestination::Preset => {
                let preset_ok = match self.preset_task_state.selected() { Some(i) => i < usize::MAX, None => true };
                self.next_id < u64::MAX && preset_ok
            },
            TaskDestination::AddTask => match self.tasks_table_state.selected() { Some(i) => i < usize::MAX, None => true },
            _ => true,
        }
    }

    /// Saves the preset popup: the edited preset gets the name and tasks,
    /// or a new preset is appended. The fields are cleared and the presets
    /// popup shows again, with the first preset selected if none was.
    pub fn save_preset(&mut self) -> (store: Store)
        requires
            old(self).edit_preset matches Some(i) ==> (i as int) < old(self).presets@.len(),
            old(self).edit_preset is None ==> old(self).next_id < u64::MAX,
        ensures
            store == Store::Presets,
            is_cleared(final(self).preset_name),
            is_cleared(final(self).task_name),
            is_cleared(final(self).planned_start),
            is_cleared(final(self).planned_end),
            final(self).preset_tasks@.len() == 0,
            final(self).popup == Popup::TasksTable(TasksTablePopup::Presets),
            final(self).edit_preset is None,
            final(self).preset_state.selected == (if old(self).preset_state.selected is None && final(self).presets@.len() > 0 {
                Some(0usize) } else { old(self).preset_state.selected }),
            match old(self).edit_preset {
                Some(i) => {
                    &&& final(self).presets@.len() == old(self).presets@.len()
                    &&& forall|j: int| 0 <= j < final(self).presets@.len() && j != i ==> #[trigger] final(self).presets@[j] == old(self).presets@[j]
                    &&& final(self).presets@[i as int].id == old(self).presets@[i as int].id
                    &&& final(self).presets@[i as int].name == old(self).preset_name.text
                    &&& final(self).presets@[i as int].tasks@ == old(self).preset_tasks@
                    &&& final(self).next_id == old(self).next_id
                    &&& final(self).mode == old(self).mode
                },
                None => {
                    &&& final(self).presets@.len() == old(self).presets@.len() + 1
                    &&& final(self).presets@.drop_last() == old(self).presets@
                    &&& final(self).presets@.last().id == old(self).next_id
                    &&& final(self).presets@.last().name == old(self).preset_name.text
                    &&& final(self).presets@.last().tasks@ == old(self).preset_tasks@
                    &&& final(self).next_id == old(self).next_id + 1
                    &&& final(self).mode == InputMode::Normal
                },
            },
            *final(self) == (App {
                presets: final(self).presets,
                preset_tasks: final(self).preset_tasks,
                edit_preset: None,
                next_id: final(self).next_id,
                mode: final(self).mode,
                preset_name: final(self).preset_name,
                popup: Popup::TasksTable(TasksTablePopup::Presets),
                task_name: final(self).task_name,
                planned_start: final(self).planned_start,
                planned_end: final(self).planned_end,
                preset_state: final(self).preset_state,
                ..*old(self)
            }),
            final(self).preset_state.offset == old(self).preset_state.offset,
    {
        let mut tasks: Vec<TaskTemplate> = Vec::new();
        std::mem::swap(&mut tasks, &mut self.preset_tasks);
        if let Some(index) = self.edit_preset {
            self.presets[index].name = self.preset_name.text.clone();
            self.presets[index].tasks = tasks;
            self.edit_preset = None;
        } else {
            let preset = Preset { id: self.next_id, name: self.preset_name.text.clone(), tasks };
            self.next_id = self.next_id + 1;
            self.presets.push(preset);
            self.mode = InputMode::Normal;
        }
        self.preset_name.clear();
        self.popup = Popup::TasksTable(TasksTablePopup::Presets);
        self.task_name.clear();
        self.planned_start.clear();
        self.planned_end.clear();
        if self.preset_state.selected().is_none() && self.presets.len() > 0 {
            self.preset_state.select(Some(0));
        }
        Store::Presets
    }

    /// Closes the task popup: back to the table when adding or editing a
    /// task, back to the preset popup when working on a preset.
    pub fn close_popup(&mut self)
        ensures
            *final(self) == task_popup_closed(*old(self)),
    {
        match self.task_destination {
            TaskDestination::AddTask | TaskDestination::EditTask(_) => {
                self.popup = Popup::Closed;
            },
            TaskDestination::Preset | TaskDestination::EditPresetTask(_) => {
                self.popup = Popup::TasksTable(TasksTablePopup::NewPreset);
            },
        }
    }

    /// Loads the selected preset into the task table: one pending task per
    /// template, in order, with the template's planned times (empty when it
    /// has none). The table's previous tasks are dropped.
    pub fn apply_preset(&mut self)
        requires
            old(self).preset_state.selected matches Some(i) ==> (i as int) < old(self).presets@.len(),
        ensures
            match old(self).preset_state.selected {
                None => *final(self) == *old(self),
                Some(i) => {
                    let ts = old(self).presets@[i as int].tasks@;
                    &&& final(self).tasks@.len() == ts.len()
                    &&& forall|k: int| 0 <= k < ts.len() ==> {
                        &&& (#[trigger] final(self).tasks@[k]).name == ts[k].name
                        &&& final(self).tasks@[k].status@ == "PENDING"@
                        &&& final(self).tasks@[k].planned_start@ == (match ts[k].planned_start { Some(s) => s@, None => Seq::empty() })
                        &&& final(self).tasks@[k].planned_end@ == (match ts[k].planned_end { Some(s) => s@, None => Seq::empty() })
                        &&& final(self).tasks@[k].actual_start is None
                        &&& final(self).tasks@[k].actual_end is None
                        &&& final(self).tasks@[k].stopwatch@ == (None::<u128>, 0u128)
                    }
                    &&& *final(self) == (App { tasks: final(self).tasks, popup: Popup::Closed, ..*old(self) })
                },
            },
    {
        if let Some(index) = self.preset_state.selected() {
            let mut tasks: Vec<TaskInfo> = Vec::new();
            let n = self.presets[index].tasks.len();
            let mut k: usize = 0;
            while k < n
                invariant
                    index < self.presets@.len(),
                    n == self.presets@[index as int].tasks@.len(),
                    k <= n,
                    tasks@.len() == k,
                    forall|j: int| 0 <= j < k ==> {
                        let t = self.presets@[index as int].tasks@[j];
                        &&& (#[trigger] tasks@[j]).name == t.name
                        &&& tasks@[j].status@ == "PENDING"@
                        &&& tasks@[j].planned_start@ == (match t.planned_start { Some(s) => s@, None => Seq::empty() })
                        &&& tasks@[j].planned_end@ == (match t.planned_end { Some(s) => s@, None => Seq::empty() })
                        &&& tasks@[j].actual_start is None
                        &&& tasks@[j].actual_end is None
                        &&& tasks@[j].stopwatch@ == (None::<u128>, 0u128)
                    },
                decreases n - k,
            {
                let template = &self.presets[index].tasks[k];
                tasks.push(TaskInfo {
                    name: template.name.clone(),
                    status: text_of("PENDING"),
                    planned_start: text_or_empty(&template.planned_start),
                    planned_end: text_or_empty(&template.planned_end),
                    actual_start: None,
                    actual_end: None,
                    stopwatch: Stopwatch::new(),
                });
                k = k + 1;
            }
            self.tasks = tasks;
            self.popup = Popup::Closed;
        }
    }

    /// Deletes the selected preset and keeps a preset selected if any is
    /// left. The pending command is cleared either way; the presets are to
    /// be stored when one was deleted.
    pub fn delete_preset(&mut self) -> (store: Option<Store>)
        requires
            old(self).preset_state.selected matches Some(i) ==> (i as int) < old(self).presets@.len(),
        ensures
            match old(self).preset_state.selected {
                None => store is None && *final(self) == (App { pending_command: None, ..*old(self) }),
                Some(i) => {
                    &&& store == Some(Store::Presets)
                    &&& final(self).presets@ == old(self).presets@.remove(i as int)
                    &&& final(self).preset_state.selected == crate::lists::clamped_selection(i as int, final(self).presets@.len() as int)
                    &&& *final(self) == (App {
                        presets: final(self).presets,
                        preset_state: final(self).preset_state,
                        pending_command: None,
                        ..*old(self)
                    })
                },
            },
    {
        let mut store = None;
        if let Some(index) = self.preset_state.selected() {
            self.presets.remove(index);
            let next = crate::lists::clamp_selection(index, self.presets.len());
            self.preset_state.select(next);
            store = Some(Store::Presets);
        }
        self.pending_command = None;
        store
    }

    /// Deletes the selected known task and keeps one selected if any is
    /// left. The known tasks are to be stored either way.
    pub fn delete_known_task(&mut self) -> (store: Store)
        requires
            old(self).known_tasks_state.selected matches Some(i) ==> (i as int) < old(self).known_tasks@.len(),
        ensures
            store == Store::KnownTasks,
            match old(self).known_tasks_state.selected {
                None => *final(self) == (App { pending_command: None, ..*old(self) }),
                Some(i) => {
                    &&& final(self).known_tasks@ == old(self).known_tasks@.remove(i as int)
                    &&& final(self).known_tasks_state.selected == crate::lists::clamped_selection(i as int, final(self).known_tasks@.len() as int)
                    &&& *final(self) == (App {
                        known_tasks: final(self).known_tasks,
                        known_tasks_state: final(self).known_tasks_state,
                        pending_command: None,
                        ..*old(self)
                    })
                },
            },
    {
        if let Some(index) = self.known_tasks_state.selected() {
            self.known_tasks.remove(index);
            let next = crate::lists::clamp_selection(index, self.known_tasks.len());
            self.known_tasks_state.select(next);
        }
        self.pending_command = None;
        Store::KnownTasks
    }

    /// The sort rank of a priority: `High` 0, `Medium` 1, `Low` 2.
    pub fn priority_rank(priority: Priority) -> (r: u8)
        ensures
            r == crate::types::priority_rank_spec(priority),
    {
        match priority {
            Priority::High => 0,
            Priority::Medium => 1,
            Priority::Low => 2,
        }
    }

    /// The text of the selected inbox entry, to be put on the clipboard.
    pub fn copy_inbox_input(&self) -> (r: Option<String>)
        requires
            self.inbox_tasks_table_state.selected matches Some(i) ==> (i as int) < self.inbox_items@.len(),
        ensures
            r == (match self.inbox_tasks_table_state.selected {
                Some(i) => Some(self.inbox_items@[i as int].input),
                None => None,
            }),
    {
        match self.inbox_tasks_table_state.selected() {
            Some(index) => Some(self.inbox_items[index].input.clone()),
            None => None,
        }
    }

    /// Reports in the status line, for one second from `now`, how copying
    /// to the clipboard went.
    pub fn report_copy_at(&mut self, outcome: CopyOutcome, now: u64)
        ensures
            final(self).status_message matches Some(m) && m@ == copy_message(outcome),
            *final(self) == (App {
                status_message: final(self).status_message,
                status_message_until: Some(crate::stopwatch::sat_add(now as int, 1000) as u64),
                ..*old(self)
            }),
    {
        let message = match outcome {
            CopyOutcome::Unavailable => text_of("Clipboard unavailable"),
            CopyOutcome::Copied => text_of("Copied to clipboard"),
            CopyOutcome::Unverified => text_of("Copied, but clipboard could not be verified"),
            CopyOutcome::Failed(error) => {
                let mut m = text_of("Copy failed: ");
                m.append(error.as_str());
                m
            },
        };
        self.set_status_message_at(message, now);
    }

    /// Reports in the status line, for one second, how copying to the
    /// clipboard went.
    pub fn report_copy(&mut self, outcome: CopyOutcome)
        ensures
            final(self).status_message matches Some(m) && m@ == copy_message(outcome),
            exists|now: u64| *final(self) == (App {
                status_message: final(self).status_message,
                status_message_until: Some(#[trigger] crate::stopwatch::sat_add(now as int, 1000) as u64),
                ..*old(self)
            }),
    {
        let now = crate::clock::now_millis();
        self.report_copy_at(outcome, now);
    }
}

} // verus!
