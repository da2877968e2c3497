//! The rows the task table shows: the tasks, the line where a moved block
//! would be dropped, and which rows stand out.
use vstd::prelude::*;
use crate::app::App;
use crate::move_items::{MoveState, MoveTarget};
use crate::types::{NavigationMode, Panel, Popup};

verus! {

/// A row of the task table.
#[derive(Clone, Copy, Debug, PartialEq, Eq, Structural)]
pub enum TaskRow {
    /// The line that marks where a moved block would be dropped.
    InsertionLine,
    /// The task at this index; `marked` when it lies in the visual range.
    Task { index: usize, marked: bool },
}

/// How the table's selected row is drawn.
#[derive(Clone, Copy, Debug, PartialEq, Eq, Structural)]
pub enum RowHighlight {
    /// Like any other row.
    Plain,
    /// In the colours of the visual range.
    Visual,
    /// In the colours of the selection.
    Selected,
}

/// Whether the insertion line stands right before task `index`: a move of
/// tasks is in progress and its gap is before that task.
pub open spec fn line_before(s: MoveState, index: int) -> bool {
    s.position is Some && s.target == Some(MoveTarget::Tasks) && s.position->0 == index
}

/// Whether the insertion line stands after the last of `len` tasks: a move
/// is in progress and its gap is at the end.
pub open spec fn line_after(s: MoveState, len: int) -> bool {
    s.position is Some && s.position->0 == len
}

/// Whether task `index` lies in the visual range: visual mode without a
/// popup, with both the anchor and the selection set, and the index
/// between them.
pub open spec fn in_visual_range(visual: bool, popup_open: bool, start: Option<usize>, current: Option<usize>, index: int) -> bool {
    visual && !popup_open && match (start, current) {
        (Some(s), Some(c)) => (if s <= c { s as int } else { c as int }) <= index
            && index <= (if s <= c { c as int } else { s as int }),
        _ => false,
    }
}

/// The rows for the first `n` tasks.
pub open spec fn rows_upto(n: nat, s: MoveState, visual: bool, popup_open: bool, start: Option<usize>, current: Option<usize>) -> Seq<TaskRow>
    decreases n,
{
    if n == 0 {
        Seq::empty()
    } else {
        let i = n - 1;
        let before = rows_upto((n - 1) as nat, s, visual, popup_open, start, current);
        let with_line = if line_before(s, i) { before.push(TaskRow::InsertionLine) } else { before };
        with_line.push(TaskRow::Task { index: i as usize, marked: in_visual_range(visual, popup_open, start, current, i) })
    }
}

/// The rows for `len` tasks: each task, the insertion line before the task
/// where the gap is, and the line after the last task when the gap is at
/// the end.
pub open spec fn task_rows(len: nat, s: MoveState, visual: bool, popup_open: bool, start: Option<usize>, current: Option<usize>) -> Seq<TaskRow> {
    let rows = rows_upto(len, s, visual, popup_open, start, current);
    if line_after(s, len as int) { rows.push(TaskRow::InsertionLine) } else { rows }
}

/// Whether the task table is in visual mode: it has the focus and the
/// navigation mode is visual.
pub open spec fn table_visual(app: App) -> bool {
    app.focused_panel == Panel::TasksTable && app.n_mode == NavigationMode::Visual
}

/// The selected row's look: plain under a popup, away from the focus or
/// during a move; the visual colours in visual mode; else the selection's.
pub open spec fn highlight_of(popup_open: bool, focused: bool, moving: bool, visual: bool) -> RowHighlight {
    if popup_open || !focused {
        RowHighlight::Plain
    } else if moving {
        RowHighlight::Plain
    } else if visual {
        RowHighlight::Visual
    } else {
        RowHighlight::Selected
    }
}

/// Whether the insertion line stands right before task `index`.
pub fn insertion_line_before(s: &MoveState, index: usize) -> (r: bool)
    ensures
        r == line_before(*s, index as int),
{
    s.is_moving() && s.target == Some(MoveTarget::Tasks) && s.position == Some(index)
}

/// Whether the insertion line stands after the last of `len` tasks.
pub fn insertion_line_after(s: &MoveState, len: usize) -> (r: bool)
    ensures
        r == line_after(*s, len as int),
{
    s.is_moving() && s.position == Some(len)
}

/// Whether task `index` lies in the visual range.
pub fn visual_range_contains(visual: bool, popup_open: bool, start: Option<usize>, current: Option<usize>, index: usize) -> (r: bool)
    ensures
        r == in_visual_range(visual, popup_open, start, current, index as int),
{
    if popup_open || !visual {
        return false;
    }
    match (start, current) {
        (Some(s), Some(c)) => {
            let first = if s <= c { s } else { c };
            let last = if s <= c { c } else { s };
            first <= index && index <= last
        },
        _ => false,
    }
}

/// The look of the task table's selected row.
pub fn row_highlight(app: &App) -> (r: RowHighlight)
    ensures
        r == highlight_of(app.popup != Popup::Closed, app.focused_panel == Panel::TasksTable,
            app.move_state.position is Some, table_visual(*app)),
{
    let popup_open = app.popup != Popup::Closed;
    let focused = app.focused_panel == Panel::TasksTable;
    let visual = focused && app.n_mode == NavigationMode::Visual;
    if popup_open || !focused {
        RowHighlight::Plain
    } else if app.move_state.is_moving() {
        RowHighlight::Plain
    } else if visual {
        RowHighlight::Visual
    } else {
        RowHighlight::Selected
    }
}

/// The rows of the task table, in the order they are drawn.
pub fn table_rows(app: &App) -> (r: Vec<TaskRow>)
    ensures
        r@ == task_rows(app.tasks@.len(), app.move_state, table_visual(*app), app.popup != Popup::Closed,
            app.n_visual_start, app.tasks_table_state.selected),
{
    let popup_open = app.popup != Popup::Closed;
    let visual = app.focused_panel == Panel::TasksTable && app.n_mode == NavigationMode::Visual;
    let start = app.n_visual_start;
    let current = app.tasks_table_state.selected;
    let len = app.tasks.len();
    let mut rows: Vec<TaskRow> = Vec::new();
    let mut i: usize = 0;
    while i < len
        invariant
            i <= len,
            len == app.tasks@.len(),
            rows@ == rows_upto(i as nat, app.move_state, visual, popup_open, start, current),
        decreases len - i,
    {
        if insertion_line_before(&app.move_state, i) {
            rows.push(TaskRow::InsertionLine);
        }
        let marked = visual_range_contains(visual, popup_open, start, current, i);
        rows.push(TaskRow::Task { index: i, marked });
        i = i + 1;
    }
    if insertion_line_after(&app.move_state, len) {
        rows.push(TaskRow::InsertionLine);
    }
    rows
}

/// In visual mode the rows an action such as deleting takes are exactly the
/// rows that the table marks as the visual range.
pub proof fn lemma_action_block_is_marked_range(start: usize, current: usize, i: int)
    ensures
        ({
            let b = crate::lists::action_block(NavigationMode::Visual, Some(start), current);
            (b.0 <= i <= b.1) == in_visual_range(true, false, Some(start), Some(current), i)
        }),
{
}

/// Every task has a row, marked exactly when it lies in the visual range,
/// whatever else is shown.
pub proof fn lemma_rows_hold_each_task(n: nat, s: MoveState, visual: bool, popup_open: bool, start: Option<usize>, current: Option<usize>, k: int)
    requires
        0 <= k < n,
        n <= usize::MAX,
    ensures
        exists|j: int| 0 <= j < rows_upto(n, s, visual, popup_open, start, current).len()
            && #[trigger] rows_upto(n, s, visual, popup_open, start, current)[j] == (TaskRow::Task {
                index: k as usize, marked: in_visual_range(visual, popup_open, start, current, k) }),
    decreases n,
{
    let before = rows_upto((n - 1) as nat, s, visual, popup_open, start, current);
    let with_line = if line_before(s, n - 1) { before.push(TaskRow::InsertionLine) } else { before };
    let all = rows_upto(n, s, visual, popup_open, start, current);
    if k == n - 1 {
        assert(all[with_line.len() as int] == (TaskRow::Task { index: k as usize, marked: in_visual_range(visual, popup_open, start, current, k) }));
    } else {
        lemma_rows_hold_each_task((n - 1) as nat, s, visual, popup_open, start, current, k);
        let j = choose|j: int| 0 <= j < before.len()
            && #[trigger] before[j] == (TaskRow::Task { index: k as usize, marked: in_visual_range(visual, popup_open, start, current, k) });
        assert(with_line[j] == before[j]);
        assert(all[j] == before[j]);
    }
}

} // verus!
