//! Where a key press goes: the keys that work everywhere when no popup is
//! open, and the handler of the open popup or the focused panel.
use vstd::prelude::*;
use crate::app::{App, Store};
use crate::keys::{Key, KeyCode};
use crate::types::{AgendaPopup, InboxPopup, Panel, Popup, TasksTablePopup, TimersPopup};

verus! {

/// The handler that a key goes to.
#[derive(Clone, Copy, Debug, PartialEq, Eq, Structural)]
pub enum KeyRoute {
    /// The key was used up here.
    Done,
    TasksTable,
    Inbox,
    Agenda,
    Timers,
    TaskPopup,
    Presets,
    NewPreset,
    KnownTasks,
    KnownTaskPopup,
    TaskInfo,
    Help,
    InboxEntryPopup,
    InboxInfo,
    EventPopup,
    AllEvents,
    EventInfo,
    TimerPopup,
    TimerFinished,
}

/// The panel that has the focus after `L`, `H`, `J` or `K`: the task table
/// and the inbox side by side, the agenda below the inbox. The timers keep
/// the focus.
pub open spec fn focus_after(panel: Panel, key: Key) -> Panel {
    match (key.code, panel) {
        (KeyCode::Char('L'), Panel::TasksTable) => Panel::Inbox,
        (KeyCode::Char('H'), Panel::Inbox) => Panel::TasksTable,
        (KeyCode::Char('H'), Panel::Agenda) => Panel::TasksTable,
        (KeyCode::Char('J'), Panel::Inbox) => Panel::Agenda,
        (KeyCode::Char('K'), Panel::Agenda) => Panel::Inbox,
        _ => panel,
    }
}

/// Whether a key moves the focus between panels.
pub open spec fn is_focus_key(key: Key) -> bool {
    key.code == KeyCode::Char('L') || key.code == KeyCode::Char('H')
        || key.code == KeyCode::Char('J') || key.code == KeyCode::Char('K')
}

/// The handler of the open popup, or of the focused panel when none is.
pub open spec fn handler_of(popup: Popup, panel: Panel) -> KeyRoute {
    match popup {
        Popup::Closed => match panel {
            Panel::TasksTable => KeyRoute::TasksTable,
            Panel::Inbox => KeyRoute::Inbox,
            Panel::Agenda => KeyRoute::Agenda,
            Panel::Timers => KeyRoute::Timers,
        },
        Popup::Help => KeyRoute::Help,
        Popup::TasksTable(p) => match p {
            TasksTablePopup::AddTask | TasksTablePopup::EditTask => KeyRoute::TaskPopup,
            TasksTablePopup::Presets => KeyRoute::Presets,
            TasksTablePopup::NewPreset => KeyRoute::NewPreset,
            TasksTablePopup::KnownTasks => KeyRoute::KnownTasks,
            TasksTablePopup::AddKnownTask | TasksTablePopup::EditKnownTask(_) => KeyRoute::KnownTaskPopup,
            TasksTablePopup::TaskInfo => KeyRoute::TaskInfo,
        },
        Popup::Inbox(p) => match p {
            InboxPopup::AddInboxItem | InboxPopup::EditInboxItem => KeyRoute::InboxEntryPopup,
            InboxPopup::InfoInboxItem => KeyRoute::InboxInfo,
        },
        Popup::Agenda(p) => match p {
            AgendaPopup::AddEvent | AgendaPopup::EditEvent => KeyRoute::EventPopup,
            AgendaPopup::AllEvents => KeyRoute::AllEvents,
            AgendaPopup::EventInfo => KeyRoute::EventInfo,
        },
        Popup::Timers(p) => match p {
            TimersPopup::AddTimer | TimersPopup::EditTimer => KeyRoute::TimerPopup,
            TimersPopup::TimerFinished(_) => KeyRoute::TimerFinished,
        },
    }
}

/// What a key does before any handler sees it. With no popup open, `?`
/// opens the help and `L`, `H`, `J`, `K` move the focus, using the key up;
/// `q` stops the planner, the tasks to be stored, and the key still goes on
/// to the focused panel. Otherwise, and whenever a popup is open, the key
/// goes to the handler of the popup or panel.
pub open spec fn key_routed(o: App, f: App, key: Key, route: KeyRoute, store: Option<Store>) -> bool {
    if o.popup == Popup::Closed && key.code == KeyCode::Char('?') {
        route == KeyRoute::Done && store is None && f == (App { popup: Popup::Help, ..o })
    } else if o.popup == Popup::Closed && is_focus_key(key) {
        route == KeyRoute::Done && store is None && f == (App { focused_panel: focus_after(o.focused_panel, key), ..o })
    } else if o.popup == Popup::Closed && key.code == KeyCode::Char('q') {
        route == handler_of(o.popup, o.focused_panel) && store == Some(Store::Tasks) && f == (App { running: false, ..o })
    } else {
        route == handler_of(o.popup, o.focused_panel) && store is None && f == o
    }
}

fn handler(popup: Popup, panel: Panel) -> (r: KeyRoute)
    ensures
        r == handler_of(popup, panel),
{
    match popup {
        Popup::Closed => match panel {
            Panel::TasksTable => KeyRoute::TasksTable,
            Panel::Inbox => KeyRoute::Inbox,
            Panel::Agenda => KeyRoute::Agenda,
            Panel::Timers => KeyRoute::Timers,
        },
        Popup::Help => KeyRoute::Help,
        Popup::TasksTable(p) => match p {
            TasksTablePopup::AddTask | TasksTablePopup::EditTask => KeyRoute::TaskPopup,
            TasksTablePopup::Presets => KeyRoute::Presets,
            TasksTablePopup::NewPreset => KeyRoute::NewPreset,
            TasksTablePopup::KnownTasks => KeyRoute::KnownTasks,
            TasksTablePopup::AddKnownTask | TasksTablePopup::EditKnownTask(_) => KeyRoute::KnownTaskPopup,
            TasksTablePopup::TaskInfo => KeyRoute::TaskInfo,
        },
        Popup::Inbox(p) => match p {
            InboxPopup::AddInboxItem | InboxPopup::EditInboxItem => KeyRoute::InboxEntryPopup,
            InboxPopup::InfoInboxItem => KeyRoute::InboxInfo,
        },
        Popup::Agenda(p) => match p {
            AgendaPopup::AddEvent | AgendaPopup::EditEvent => KeyRoute::EventPopup,
            AgendaPopup::AllEvents => KeyRoute::AllEvents,
            AgendaPopup::EventInfo => KeyRoute::EventInfo,
        },
        Popup::Timers(p) => match p {
            TimersPopup::AddTimer | TimersPopup::EditTimer => KeyRoute::TimerPopup,
            TimersPopup::TimerFinished(_) => KeyRoute::TimerFinished,
        },
    }
}

fn focus(panel: Panel, key: Key) -> (r: Panel)
    ensures
        r == focus_after(panel, key),
{
    match (key.code, panel) {
        (KeyCode::Char('L'), Panel::TasksTable) => Panel::Inbox,
        (KeyCode::Char('H'), Panel::Inbox) => Panel::TasksTable,
        (KeyCode::Char('H'), Panel::Agenda) => Panel::TasksTable,
        (KeyCode::Char('J'), Panel::Inbox) => Panel::Agenda,
        (KeyCode::Char('K'), Panel::Agenda) => Panel::Inbox,
        _ => panel,
    }
}

/// Handles the keys that work everywhere and tells which handler the key
/// goes to next.
pub fn route_key(app: &mut App, key: Key) -> (r: (KeyRoute, Option<Store>))
    ensures
        key_routed(*old(app), *final(app), key, r.0, r.1),
{
    if app.popup == Popup::Closed {
        if key.code == KeyCode::Char('?') {
            app.popup = Popup::Help;
            return (KeyRoute::Done, None);
        }
        if key.code == KeyCode::Char('L') || key.code == KeyCode::Char('H')
            || key.code == KeyCode::Char('J') || key.code == KeyCode::Char('K') {
            app.focused_panel = focus(app.focused_panel, key);
            return (KeyRoute::Done, None);
        }
        if key.code == KeyCode::Char('q') {
            app.running = false;
            return (handler(app.popup, app.focused_panel), Some(Store::Tasks));
        }
    }
    (handler(app.popup, app.focused_panel), None)
}

/// A focus move by `L`, `J` or `K` that changed the panel is undone by the
/// opposite key: `H` after `L`, `K` after `J`, `J` after `K`.
pub proof fn lemma_focus_moves_undo(panel: Panel)
    ensures
        focus_after(panel, Key { code: KeyCode::Char('L'), ctrl: false }) != panel ==>
            focus_after(focus_after(panel, Key { code: KeyCode::Char('L'), ctrl: false }), Key { code: KeyCode::Char('H'), ctrl: false }) == panel,
        focus_after(panel, Key { code: KeyCode::Char('J'), ctrl: false }) != panel ==>
            focus_after(focus_after(panel, Key { code: KeyCode::Char('J'), ctrl: false }), Key { code: KeyCode::Char('K'), ctrl: false }) == panel,
        focus_after(panel, Key { code: KeyCode::Char('K'), ctrl: false }) != panel ==>
            focus_after(focus_after(panel, Key { code: KeyCode::Char('K'), ctrl: false }), Key { code: KeyCode::Char('J'), ctrl: false }) == panel,
{
}

} // verus!
