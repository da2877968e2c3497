//! The planner's modes: panels, popups, input focus and destinations.
use vstd::prelude::*;

verus! {

/// How urgent an inbox entry is.
#[derive(Clone, Copy, Debug, PartialEq, Eq, Structural)]
pub enum Priority {
    Low,
    Medium,
    High,
}

impl Default for Priority {
    fn default() -> (p: Self)
        ensures
            p == Priority::Low,
    {
        Priority::Low
    }
}

/// The label shown for a priority.
pub open spec fn priority_label(p: Priority) -> Seq<char> {
    match p {
        Priority::Low => "LOW"@,
        Priority::Medium => "MEDIUM"@,
        Priority::High => "HIGH"@,
    }
}

/// The sort rank of a priority: high first.
pub open spec fn priority_rank_spec(p: Priority) -> u8 {
    match p {
        Priority::High => 0,
        Priority::Medium => 1,
        Priority::Low => 2,
    }
}

impl Priority {
    /// The label shown for the priority.
    pub fn as_str(&self) -> (s: &'static str)
        ensures
            s@ == priority_label(*self),
    {
        match self {
            Priority::Low => "LOW",
            Priority::Medium => "MEDIUM",
            Priority::High => "HIGH",
        }
    }
}

/// The panel that has the focus.
#[derive(Clone, Copy, Debug, PartialEq, Eq, Structural)]
pub enum Panel {
    TasksTable,
    Inbox,
    Agenda,
    Timers,
}

/// The popup that is open, if any.
#[derive(Clone, Copy, Debug, PartialEq, Eq, Structural)]
pub enum Popup {
    /// No popup is open.
    Closed,
    Help,
    TasksTable(TasksTablePopup),
    Inbox(InboxPopup),
    Agenda(AgendaPopup),
    Timers(TimersPopup),
}

/// The popups of the inbox.
#[derive(Clone, Copy, Debug, PartialEq, Eq, Structural)]
pub enum InboxPopup {
    AddInboxItem,
    EditInboxItem,
    InfoInboxItem,
}

/// The popups of the task table.
#[derive(Clone, Copy, Debug, PartialEq, Eq, Structural)]
pub enum TasksTablePopup {
    AddTask,
    Presets,
    EditTask,
    NewPreset,
    KnownTasks,
    AddKnownTask,
    EditKnownTask(usize),
    TaskInfo,
}

/// The popups of the agenda.
#[derive(Clone, Copy, Debug, PartialEq, Eq, Structural)]
pub enum AgendaPopup {
    AddEvent,
    EditEvent,
    AllEvents,
    EventInfo,
}

/// The popups of the timers.
#[derive(Clone, Copy, Debug, PartialEq, Eq, Structural)]
pub enum TimersPopup {
    AddTimer,
    EditTimer,
    TimerFinished(usize),
}

/// Which part of the new-preset popup has the focus.
#[derive(Clone, Copy, Debug, PartialEq, Eq, Structural)]
pub enum NewPresetFocus {
    Name,
    Tasks,
}

/// Where the task being edited will go when it is saved.
#[derive(Clone, Copy, Debug, PartialEq, Eq, Structural)]
pub enum TaskDestination {
    AddTask,
    Preset,
    EditTask(usize),
    EditPresetTask(usize),
}

/// The field of the task popup that has the focus.
#[derive(Clone, Copy, Debug, PartialEq, Eq, Structural)]
pub enum TaskSelectedInput {
    TaskName,
    PlannedStart,
    PlannedEnd,
}

/// The field of the inbox popup that has the focus.
#[derive(Clone, Copy, Debug, PartialEq, Eq, Structural)]
pub enum InboxSelectedInput {
    InboxItemInput,
    Priority,
}

/// The field of the event popup that has the focus.
#[derive(Clone, Copy, Debug, PartialEq, Eq, Structural)]
pub enum AgendaSelectedInput {
    Name,
    Date,
    Time,
    Repeat,
}

/// The field of the timer popup that has the focus.
#[derive(Clone, Copy, Debug, PartialEq, Eq, Structural)]
pub enum TimerSelectedInput {
    Name,
    Duration,
}

/// How keys move through a list.
#[derive(Clone, Copy, Debug, PartialEq, Eq, Structural)]
pub enum NavigationMode {
    Normal,
    Visual,
    Search,
    SearchNavigation,
}

/// Whether keys type text or give commands.
#[derive(Clone, Copy, Debug, PartialEq, Eq, Structural)]
pub enum InputMode {
    Normal,
    Insert,
}

} // verus!
