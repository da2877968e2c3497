//! The name suggestions of the task popup and the keys that pick one.
use vstd::prelude::*;
use crate::app::{App, Store, task_popup_closed, task_popup_saved};
use crate::keys::{Key, KeyCode};
use crate::text_input::{InputState, input_edited};
use crate::suggestions::{suggestions_spec, task_name_suggestions, views};
use crate::types::TaskSelectedInput;

verus! {

/// Suggests names for what the task popup's name field holds; the first
/// suggestion is selected.
pub fn update_suggestions(app: &mut App)
    ensures
        views(final(app).suggestions@) == suggestions_spec(old(app).known_tasks@, old(app).presets@, old(app).task_name.text@),
        *final(app) == (App { suggestions: final(app).suggestions, selected_suggestion: 0, ..*old(app) }),
{
    app.suggestions = task_name_suggestions(app.known_tasks.as_slice(), app.presets.as_slice(), app.task_name.text.as_str());
    app.selected_suggestion = 0;
}

/// What a key does to the suggestions while the task name is typed:
/// Ctrl-`j` and Ctrl-`k` move through them, Enter takes the selected one as
/// the name, cursor at its end, and hides them. Returns whether the key was
/// used; without suggestions, or in another field, no key is.
pub open spec fn suggestion_key_handled(o: App, f: App, key: Key, used: bool) -> bool {
    if o.tasks_selected_input != TaskSelectedInput::TaskName || o.suggestions@.len() == 0 {
        !used && f == o
    } else {
        match key.code {
            KeyCode::Char('j') if key.ctrl => used && f == (App {
                selected_suggestion: if o.selected_suggestion + 1 < o.suggestions@.len() { (o.selected_suggestion + 1) as usize } else { o.selected_suggestion },
                ..o
            }),
            KeyCode::Char('k') if key.ctrl => used && f == (App {
                selected_suggestion: if o.selected_suggestion > 0 { (o.selected_suggestion - 1) as usize } else { o.selected_suggestion },
                ..o
            }),
            KeyCode::Enter => used && if (o.selected_suggestion as int) < o.suggestions@.len() {
                let name = o.suggestions@[o.selected_suggestion as int];
                &&& f.task_name.text == name
                &&& f.task_name.cursor == name@.len()
                &&& f.suggestions@.len() == 0
                &&& f == (App { task_name: f.task_name, suggestions: f.suggestions, ..o })
            } else {
                f == o
            },
            _ => !used && f == o,
        }
    }
}

fn take_suggestion(field: &mut InputState, suggestions: &mut Vec<String>, selected: usize)
    ensures
        (selected as int) < old(suggestions)@.len() ==> {
            &&& final(field).text == old(suggestions)@[selected as int]
            &&& final(field).cursor == old(suggestions)@[selected as int]@.len()
            &&& final(suggestions)@.len() == 0
        },
        (selected as int) >= old(suggestions)@.len() ==> *final(field) == *old(field) && *final(suggestions) == *old(suggestions),
{
    if selected < suggestions.len() {
        let name = suggestions[selected].clone();
        let n = name.as_str().unicode_len();
        field.text = name;
        field.cursor = n;
        suggestions.clear();
    }
}

/// Handles the keys that work on the name suggestions.
pub fn handle_suggestion_keys(app: &mut App, key: Key) -> (used: bool)
    ensures
        suggestion_key_handled(*old(app), *final(app), key, used),
{
    if app.tasks_selected_input != TaskSelectedInput::TaskName {
        return false;
    }
    if app.suggestions.len() == 0 {
        return false;
    }
    match key.code {
        KeyCode::Char('j') if key.ctrl => {
            if app.selected_suggestion < app.suggestions.len() - 1 {
                app.selected_suggestion = app.selected_suggestion + 1;
            }
            true
        },
        KeyCode::Char('k') if key.ctrl => {
            if app.selected_suggestion > 0 {
                app.selected_suggestion = app.selected_suggestion - 1;
            }
            true
        },
        KeyCode::Enter => {
            let selected = app.selected_suggestion;
            take_suggestion(&mut app.task_name, &mut app.suggestions, selected);
            true
        },
        _ => false,
    }
}

/// The field after Tab in the task popup: name, start, end, and round.
pub open spec fn next_task_field(f: TaskSelectedInput) -> TaskSelectedInput {
    match f {
        TaskSelectedInput::TaskName => TaskSelectedInput::PlannedStart,
        TaskSelectedInput::PlannedStart => TaskSelectedInput::PlannedEnd,
        TaskSelectedInput::PlannedEnd => TaskSelectedInput::TaskName,
    }
}

/// The field after BackTab in the task popup.
pub open spec fn previous_task_field(f: TaskSelectedInput) -> TaskSelectedInput {
    match f {
        TaskSelectedInput::TaskName => TaskSelectedInput::PlannedEnd,
        TaskSelectedInput::PlannedEnd => TaskSelectedInput::PlannedStart,
        TaskSelectedInput::PlannedStart => TaskSelectedInput::TaskName,
    }
}

/// Whether a key edits a text field or moves its cursor.
pub open spec fn is_field_key(key: Key) -> bool {
    key.code is Char || key.code == KeyCode::Backspace || key.code == KeyCode::Left || key.code == KeyCode::Right
}

/// The selected field of the task popup took the key; when the name's text
/// changed, the suggestions were made anew.
pub open spec fn task_field_edited(o: App, f: App, key: Key) -> bool {
    match o.tasks_selected_input {
        TaskSelectedInput::TaskName => {
            &&& input_edited(o.task_name, f.task_name, key)
            &&& if key.code is Char || key.code == KeyCode::Backspace {
                &&& views(f.suggestions@) == suggestions_spec(o.known_tasks@, o.presets@, f.task_name.text@)
                &&& f == (App { task_name: f.task_name, suggestions: f.suggestions, selected_suggestion: 0, ..o })
            } else {
                f == (App { task_name: f.task_name, ..o })
            }
        },
        TaskSelectedInput::PlannedStart => input_edited(o.planned_start, f.planned_start, key)
            && f == (App { planned_start: f.planned_start, ..o }),
        TaskSelectedInput::PlannedEnd => input_edited(o.planned_end, f.planned_end, key)
            && f == (App { planned_end: f.planned_end, ..o }),
    }
}

/// Whether a key works on the suggestions, as `handle_suggestion_keys`
/// takes it.
pub open spec fn suggestion_key(o: App, key: Key) -> bool {
    o.tasks_selected_input == TaskSelectedInput::TaskName && o.suggestions@.len() > 0 && match key.code {
        KeyCode::Char('j') | KeyCode::Char('k') => key.ctrl,
        KeyCode::Enter => true,
        _ => false,
    }
}

/// What a key does in the task popup: keys for the suggestions go to them;
/// characters, Backspace, Left and Right go to the selected field; Enter
/// saves the task (the task table is then to be stored), Esc closes the
/// popup, Tab and BackTab move between the fields.
pub open spec fn task_popup_key_handled(o: App, f: App, key: Key, store: Option<Store>) -> bool {
    if suggestion_key(o, key) {
        store is None && suggestion_key_handled(o, f, key, true)
    } else if is_field_key(key) {
        store is None && task_field_edited(o, f, key)
    } else {
        match key.code {
            KeyCode::Enter => store == Some(Store::Tasks) && task_popup_saved(o, f),
            KeyCode::Esc => store is None && f == task_popup_closed(o),
            KeyCode::Tab => store is None && f == (App { tasks_selected_input: next_task_field(o.tasks_selected_input), ..o }),
            KeyCode::BackTab => store is None && f == (App { tasks_selected_input: previous_task_field(o.tasks_selected_input), ..o }),
            _ => store is None && f == o,
        }
    }
}

/// Whether the task popup can take any key: the fields' cursors stand in
/// their texts, and a saved task has an id and a row after the selected
/// one.
pub open spec fn task_popup_ready(app: App) -> bool {
    &&& app.task_name.cursor_in_text()
    &&& app.planned_start.cursor_in_text()
    &&& app.planned_end.cursor_in_text()
    &&& crate::app::task_save_fits(app)
}

fn edit_task_field(app: &mut App, key: Key)
    requires
        is_field_key(key),
        task_popup_ready(*old(app)),
    ensures
        task_field_edited(*old(app), *final(app), key),
{
    match app.tasks_selected_input {
        TaskSelectedInput::TaskName => {
            app.task_name.handle_key(key);
            match key.code {
                KeyCode::Char(_) | KeyCode::Backspace => update_suggestions(app),
                _ => {},
            }
        },
        TaskSelectedInput::PlannedStart => app.planned_start.handle_key(key),
        TaskSelectedInput::PlannedEnd => app.planned_end.handle_key(key),
    }
}

/// Handles a key in the task popup.
pub fn handle_keys(app: &mut App, key: Key) -> (store: Option<Store>)
    requires
        task_popup_ready(*old(app)),
    ensures
        task_popup_key_handled(*old(app), *final(app), key, store),
{
    if handle_suggestion_keys(app, key) {
        return None;
    }
    match key.code {
        KeyCode::Char(_) | KeyCode::Backspace | KeyCode::Left | KeyCode::Right => {
            edit_task_field(app, key);
            None
        },
        KeyCode::Enter => Some(app.save_task()),
        KeyCode::Esc => {
            app.close_popup();
            None
        },
        KeyCode::Tab => {
            app.tasks_selected_input = match app.tasks_selected_input {
                TaskSelectedInput::TaskName => TaskSelectedInput::PlannedStart,
                TaskSelectedInput::PlannedStart => TaskSelectedInput::PlannedEnd,
                TaskSelectedInput::PlannedEnd => TaskSelectedInput::TaskName,
            };
            None
        },
        KeyCode::BackTab => {
            app.tasks_selected_input = match app.tasks_selected_input {
                TaskSelectedInput::TaskName => TaskSelectedInput::PlannedEnd,
                TaskSelectedInput::PlannedEnd => TaskSelectedInput::PlannedStart,
                TaskSelectedInput::PlannedStart => TaskSelectedInput::TaskName,
            };
            None
        },
        _ => None,
    }
}

/// Tells whether the task popup can take a key.
pub fn task_popup_fits(app: &App) -> (r: bool)
    ensures
        r == task_popup_ready(*app),
{
    let name_ok = app.task_name.cursor <= app.task_name.text.as_str().unicode_len() && app.task_name.text.as_str().unicode_len() < usize::MAX;
    let start_ok = app.planned_start.cursor <= app.planned_start.text.as_str().unicode_len() && app.planned_start.text.as_str().unicode_len() < usize::MAX;
    let end_ok = app.planned_end.cursor <= app.planned_end.text.as_str().unicode_len() && app.planned_end.text.as_str().unicode_len() < usize::MAX;
    name_ok && start_ok && end_ok && app.can_save_task()
}

} // verus!
