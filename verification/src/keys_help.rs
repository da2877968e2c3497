//! The key hints shown at the bottom of a popup.
use vstd::prelude::*;
use crate::app::App;
use crate::types::{InboxPopup, Popup, TasksTablePopup};

verus! {

/// The hints as texts: each key and the label after it.
pub open spec fn hint_views(v: Seq<(String, String)>) -> Seq<(Seq<char>, Seq<char>)> {
    v.map_values(|h: (String, String)| (h.0@, h.1@))
}

/// The key hints of a popup, each a key and its label.
pub open spec fn key_hints(p: Popup) -> Seq<(Seq<char>, Seq<char>)> {
    match p {
        Popup::TasksTable(TasksTablePopup::AddTask) | Popup::TasksTable(TasksTablePopup::EditTask)
        | Popup::TasksTable(TasksTablePopup::AddKnownTask) | Popup::TasksTable(TasksTablePopup::EditKnownTask(_)) =>
            seq![("Enter"@, " Save  "@), ("Esc"@, " Cancel"@)],
        Popup::TasksTable(TasksTablePopup::Presets) =>
            seq![("a"@, " Add preset  "@), ("e"@, " Edit  "@), ("dd"@, " Delete  "@), ("Enter"@, " Load  "@), ("q"@, " Close"@)],
        Popup::TasksTable(TasksTablePopup::NewPreset) =>
            seq![("a"@, " Add Task  "@), ("e"@, " Edit Task  "@), ("dd"@, " Delete Task  "@), ("Enter"@, " Save  "@), ("Esc"@, " Cancel"@)],
        Popup::TasksTable(TasksTablePopup::KnownTasks) =>
            seq![("a"@, " Add Task  "@), ("e"@, " Edit Task  "@), ("dd"@, " Delete Task  "@), ("q"@, " Close"@)],
        Popup::Inbox(InboxPopup::InfoInboxItem) =>
            seq![("cc"@, " Copy text  "@), ("q"@, " Close"@)],
        _ => Seq::empty(),
    }
}

fn hint(v: &mut Vec<(String, String)>, key: &str, label: &str)
    ensures
        hint_views(final(v)@) == hint_views(old(v)@).push((key@, label@)),
{
    v.push((String::from_str(key), String::from_str(label)));
    assert(hint_views(v@) =~= hint_views(old(v)@).push((key@, label@)));
}

/// The key hints of the open popup: for each, the key, shown in bold, and
/// the label after it. Popups without hints, and no popup, give none.
pub fn keys(app: &App) -> (r: Vec<(String, String)>)
    ensures
        hint_views(r@) == key_hints(app.popup),
{
    let mut v: Vec<(String, String)> = Vec::new();
    assert(hint_views(v@) =~= Seq::<(Seq<char>, Seq<char>)>::empty());
    match app.popup {
        Popup::TasksTable(TasksTablePopup::AddTask) | Popup::TasksTable(TasksTablePopup::EditTask)
        | Popup::TasksTable(TasksTablePopup::AddKnownTask) | Popup::TasksTable(TasksTablePopup::EditKnownTask(_)) => {
            hint(&mut v, "Enter", " Save  ");
            hint(&mut v, "Esc", " Cancel");
        },
        Popup::TasksTable(TasksTablePopup::Presets) => {
            hint(&mut v, "a", " Add preset  ");
            hint(&mut v, "e", " Edit  ");
            hint(&mut v, "dd", " Delete  ");
            hint(&mut v, "Enter", " Load  ");
            hint(&mut v, "q", " Close");
        },
        Popup::TasksTable(TasksTablePopup::NewPreset) => {
            hint(&mut v, "a", " Add Task  ");
            hint(&mut v, "e", " Edit Task  ");
            hint(&mut v, "dd", " Delete Task  ");
            hint(&mut v, "Enter", " Save  ");
            hint(&mut v, "Esc", " Cancel");
        },
        Popup::TasksTable(TasksTablePopup::KnownTasks) => {
            hint(&mut v, "a", " Add Task  ");
            hint(&mut v, "e", " Edit Task  ");
            hint(&mut v, "dd", " Delete Task  ");
            hint(&mut v, "q", " Close");
        },
        Popup::Inbox(InboxPopup::InfoInboxItem) => {
            hint(&mut v, "cc", " Copy text  ");
            hint(&mut v, "q", " Close");
        },
        _ => {},
    }
    v
}

} // verus!
