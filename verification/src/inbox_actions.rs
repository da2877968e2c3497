//! The actions of the inbox panel.
use vstd::prelude::*;
use crate::app::{App, Store, is_cleared, holds_text};
use crate::inbox::InboxItemInfo;
use crate::lists::{action_block, action_bounds, drain_range, without_block, clamp_selection, clamped_selection};
use crate::search::normalized_query;
use crate::selection::{Selectable, SelectionState};
use crate::task_actions::{row_in, block_in};
use crate::text::{chars_of, contains, contains_seq, lowercased, to_lowercase, trim};
use crate::text_input::InputState;
use crate::types::{InboxPopup, InboxSelectedInput, InputMode, NavigationMode, Popup, Priority};

verus! {

/// The selected entry was opened for editing: its text, cursor at the
/// end, and its priority went into the inbox popup.
pub open spec fn inbox_entry_opened(o: App, f: App) -> bool {
    match o.inbox_tasks_table_state.selected {
        None => f == o,
        Some(i) => {
            &&& holds_text(f.inbox_item, o.inbox_items@[i as int].input@)
            &&& f == (App {
                inbox_item: f.inbox_item,
                priority: o.inbox_items@[i as int].priority,
                mode: InputMode::Normal,
                popup: Popup::Inbox(InboxPopup::EditInboxItem),
                inbox_selected_input: InboxSelectedInput::InboxItemInput,
                pending_command: None,
                ..o
            })
        },
    }
}

/// Whether the selected entry, if any, can be opened for editing.
pub open spec fn entry_editable(app: App) -> bool {
    &&& row_in(app.inbox_tasks_table_state.selected, app.inbox_items@.len() as int)
    &&& app.inbox_tasks_table_state.selected matches Some(i) ==> app.inbox_items@[i as int].input@.len() < usize::MAX
}

/// Opens the selected entry for editing: its text, cursor at the end, and
/// its priority go into the inbox popup.
pub fn edit_inbox_item(app: &mut App)
    requires
        entry_editable(*old(app)),
    ensures
        inbox_entry_opened(*old(app), *final(app)),
{
    if let Some(index) = app.inbox_tasks_table_state.selected() {
        let text = app.inbox_items[index].input.clone();
        app.priority = app.inbox_items[index].priority;
        app.inbox_item = InputState::with_text(text);
        app.mode = InputMode::Normal;
        app.popup = Popup::Inbox(InboxPopup::EditInboxItem);
        app.inbox_selected_input = InboxSelectedInput::InboxItemInput;
        app.pending_command = None;
    }
}

/// The inbox after opening the details of the selected entry, if one is
/// selected.
pub open spec fn inbox_info_opened(o: App) -> App {
    if o.inbox_tasks_table_state.selected is Some {
        App { popup: Popup::Inbox(InboxPopup::InfoInboxItem), ..o }
    } else {
        o
    }
}

/// Opens the details of the selected entry, if one is selected.
pub fn inbox_item_info(app: &mut App)
    ensures
        *final(app) == inbox_info_opened(*old(app)),
{
    if app.inbox_tasks_table_state.selected().is_some() {
        app.popup = Popup::Inbox(InboxPopup::InfoInboxItem);
    }
}

/// The popup to add an entry opened: empty text, low priority.
pub open spec fn inbox_add_opened(o: App, f: App) -> bool {
    &&& is_cleared(f.inbox_item)
    &&& f == (App {
        inbox_item: f.inbox_item,
        priority: Priority::Low,
        mode: InputMode::Insert,
        inbox_selected_input: InboxSelectedInput::InboxItemInput,
        popup: Popup::Inbox(InboxPopup::AddInboxItem),
        ..o
    })
}

/// Opens the popup to add an entry: empty text, low priority.
pub fn inbox_item_add_popup(app: &mut App)
    ensures
        inbox_add_opened(*old(app), *final(app)),
{
    app.inbox_item.clear();
    app.priority = Priority::Low;
    app.mode = InputMode::Insert;
    app.inbox_selected_input = InboxSelectedInput::InboxItemInput;
    app.popup = Popup::Inbox(InboxPopup::AddInboxItem);
}

/// Whether an entry's text, in lower case, contains the query `q`.
pub open spec fn entry_matches(item: InboxItemInfo, q: Seq<char>) -> bool {
    contains_seq(lowercased(item.input@), q)
}

/// The first entry that matches `q`, if any.
pub open spec fn first_match(items: Seq<InboxItemInfo>, q: Seq<char>) -> Option<int> {
    if exists|i: int| 0 <= i < items.len() && entry_matches(items[i], q) {
        Some(choose|i: int| 0 <= i < items.len() && entry_matches(items[i], q)
            && forall|j: int| 0 <= j < i ==> !entry_matches(items[j], q))
    } else {
        None
    }
}

proof fn lemma_first_match_is(items: Seq<InboxItemInfo>, q: Seq<char>, i: int)
    requires
        0 <= i < items.len(),
        entry_matches(items[i], q),
        forall|j: int| 0 <= j < i ==> !entry_matches(items[j], q),
    ensures
        first_match(items, q) == Some(i),
{
    let c = choose|c: int| 0 <= c < items.len() && entry_matches(items[c], q)
        && forall|j: int| 0 <= j < c ==> !entry_matches(items[j], q);
    assert(c == i) by {
        if c < i {
        } else if c > i {
            assert(!entry_matches(items[i], q));
        }
    }
}

/// The inbox's selection after searching for `query`: the first entry
/// whose text contains the trimmed query, ignoring case; unchanged for an
/// empty query or when no entry contains it.
pub open spec fn inbox_search_selection(o: App, query: Seq<char>) -> SelectionState {
    if crate::text::trimmed(query).len() == 0 {
        o.inbox_tasks_table_state
    } else {
        match first_match(o.inbox_items@, normalized_query(query)) {
            None => o.inbox_tasks_table_state,
            Some(i) => SelectionState { selected: Some(i as usize), ..o.inbox_tasks_table_state },
        }
    }
}

/// Selects the first entry whose text contains the query, ignoring case
/// and the query's surrounding white space. An empty query, or one that no
/// entry contains, changes nothing.
pub fn search_inbox(app: &mut App)
    ensures
        *final(app) == (App {
            inbox_tasks_table_state: inbox_search_selection(*old(app), old(app).inbox_search.query@),
            ..*old(app)
        }),
{
    let query = trim(app.inbox_search.query.as_str());
    if query.is_empty() {
        return;
    }
    let lowered = to_lowercase(query);
    let q = chars_of(lowered.as_str());
    let mut i: usize = 0;
    while i < app.inbox_items.len()
        invariant
            i <= app.inbox_items@.len(),
            *app == *old(app),
            crate::text::trimmed(old(app).inbox_search.query@).len() != 0,
            q@ == normalized_query(old(app).inbox_search.query@),
            forall|j: int| 0 <= j < i ==> !entry_matches(app.inbox_items@[j], q@),
        decreases app.inbox_items@.len() - i,
    {
        let text = to_lowercase(app.inbox_items[i].input.as_str());
        let t = chars_of(text.as_str());
        if contains(t.as_slice(), q.as_slice()) {
            assert(entry_matches(app.inbox_items@[i as int], q@));
            assert(0 <= i < app.inbox_items@.len() && entry_matches(app.inbox_items@[i as int], q@));
            proof { lemma_first_match_is(old(app).inbox_items@, q@, i as int); }
            app.inbox_tasks_table_state.select(Some(i));
            assert(crate::text::trimmed(old(app).inbox_search.query@).len() != 0);
            assert(first_match(old(app).inbox_items@, normalized_query(old(app).inbox_search.query@)) == Some(i as int));
            assert(app.inbox_tasks_table_state == (SelectionState { selected: Some(i), ..old(app).inbox_tasks_table_state }));
            assert(*app == (App {
                inbox_tasks_table_state: SelectionState { selected: Some(i), ..old(app).inbox_tasks_table_state },
                ..*old(app)
            }));
            return;
        }
        i = i + 1;
    }
}

/// The view after rows were deleted from an inbox of `len` rows: the
/// selection clamped, and the scroll pulled up by the number of deleted rows
/// when it was scrolled, or back to the top when nothing is left.
pub open spec fn after_deleting(o: SelectionState, first: usize, deleted: int, len: int) -> SelectionState {
    SelectionState {
        selected: clamped_selection(first as int, len),
        offset: if len == 0 {
            0
        } else if o.offset > 0 {
            if o.offset >= deleted { (o.offset - deleted) as usize } else { 0 }
        } else {
            o.offset
        },
    }
}

fn delete_entries(items: &mut Vec<InboxItemInfo>, state: &mut SelectionState, first: usize, last: usize)
    requires
        first <= last < old(items)@.len(),
    ensures
        final(items)@ == without_block(old(items)@, first as int, last as int),
        *final(state) == after_deleting(*old(state), first, last - first + 1, final(items)@.len() as int),
{
    let n = items.len();
    let deleted_count = last - first + 1;
    drain_range(items, first, last);
    if items.len() == 0 {
        state.select(None);
        state.set_offset(0);
    } else {
        let next = clamp_selection(first, items.len());
        state.select(next);
        let current_offset = state.offset();
        if current_offset > 0 {
            let new_offset = if current_offset >= deleted_count { current_offset - deleted_count } else { 0 };
            state.set_offset(new_offset);
        }
    }
}

/// The selected entry, or in visual mode the selected block, was deleted.
pub open spec fn inbox_entries_deleted(o: App, f: App, store: Option<Store>) -> bool {
    match o.inbox_tasks_table_state.selected {
        None => store is None && f == o,
        Some(c) => {
            let (first, last) = action_block(o.n_mode, o.n_visual_start, c);
            &&& store == Some(Store::Inbox)
            &&& f.inbox_items@ == without_block(o.inbox_items@, first as int, last as int)
            &&& f.inbox_tasks_table_state == after_deleting(o.inbox_tasks_table_state, first,
                last - first + 1, f.inbox_items@.len() as int)
            &&& f == (App {
                inbox_items: f.inbox_items,
                inbox_tasks_table_state: f.inbox_tasks_table_state,
                n_mode: NavigationMode::Normal,
                n_visual_start: None,
                ..o
            })
        },
    }
}

/// Deletes the selected entry, or in visual mode the selected block, and
/// selects the row that took its place. When the view was scrolled, it
/// scrolls back up by the number of deleted rows; an emptied inbox scrolls
/// to the top. Visual mode ends; the inbox is to be stored when rows were
/// deleted.
pub fn delete_inbox_item(app: &mut App) -> (store: Option<Store>)
    requires
        block_in(old(app).n_mode, old(app).n_visual_start, old(app).inbox_tasks_table_state.selected, old(app).inbox_items@.len() as int),
    ensures
        inbox_entries_deleted(*old(app), *final(app), store),
{
    if let Some(current) = app.inbox_tasks_table_state.selected() {
        let (first, last) = action_bounds(app.n_mode, app.n_visual_start, current);
        delete_entries(&mut app.inbox_items, &mut app.inbox_tasks_table_state, first, last);
        app.n_mode = NavigationMode::Normal;
        app.n_visual_start = None;
        return Some(Store::Inbox);
    }
    None
}

} // verus!
