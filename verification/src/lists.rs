//! Operations on lists of rows shared by the panels.
use vstd::prelude::*;
use crate::types::NavigationMode;

verus! {

/// The rows an action applies to: the block between the visual-mode anchor
/// and the selected row in visual mode, else the selected row alone.
pub open spec fn action_block(mode: NavigationMode, visual_start: Option<usize>, current: usize) -> (usize, usize) {
    if mode == NavigationMode::Visual {
        match visual_start {
            Some(s) => (if s <= current { s } else { current }, if s <= current { current } else { s }),
            None => (current, current),
        }
    } else {
        (current, current)
    }
}

/// The rows an action applies to.
pub fn action_bounds(mode: NavigationMode, visual_start: Option<usize>, current: usize) -> (r: (usize, usize))
    ensures
        r == action_block(mode, visual_start, current),
        r.0 <= r.1,
        r.0 <= current <= r.1,
        mode == NavigationMode::Visual && visual_start is Some ==> {
            let s = visual_start->0;
            &&& r.0 <= s <= r.1
            &&& (r.0 == s || r.0 == current)
            &&& (r.1 == s || r.1 == current)
        },
        !(mode == NavigationMode::Visual && visual_start is Some) ==> r.0 == current && r.1 == current,
{
    if mode == NavigationMode::Visual {
        match visual_start {
            Some(s) => (if s <= current { s } else { current }, if s <= current { current } else { s }),
            None => (current, current),
        }
    } else {
        (current, current)
    }
}

/// An action takes the rows from the visual-mode anchor to the selected
/// row, whichever comes first, both included: in visual mode a row is in
/// the block exactly when it lies between the anchor and the selected row.
/// Outside visual mode, or without an anchor, it takes the selected row
/// alone.
pub proof fn lemma_action_block_spans_anchor_and_cursor(mode: NavigationMode, visual_start: Option<usize>, current: usize, i: int)
    ensures
        mode == NavigationMode::Visual && visual_start is Some ==> {
            let s = visual_start->0 as int;
            let b = action_block(mode, visual_start, current);
            (b.0 <= i <= b.1) <==> ((s <= i <= current) || (current <= i <= s))
        },
        !(mode == NavigationMode::Visual && visual_start is Some) ==> action_block(mode, visual_start, current) == (current, current),
        action_block(mode, visual_start, current).0 <= current <= action_block(mode, visual_start, current).1,
{
}

/// The list without the rows `first..=last`.
pub open spec fn without_block<T>(s: Seq<T>, first: int, last: int) -> Seq<T> {
    s.subrange(0, first) + s.subrange(last + 1, s.len() as int)
}

/// Removes the rows `first..=last`, as `Vec::drain(first..=last)` does.
pub fn drain_range<T>(v: &mut Vec<T>, first: usize, last: usize)
    requires
        first <= last < old(v)@.len(),
    ensures
        final(v)@ == without_block(old(v)@, first as int, last as int),
{
    let ghost s = v@;
    let n = v.len();
    assert(last < n);
    let count = last - first + 1;
    let mut i: usize = 0;
    while i < count
        invariant
            first <= last < s.len(),
            count == last - first + 1,
            i <= count,
            v@ == s.subrange(0, first as int) + s.subrange(first + i, s.len() as int),
        decreases count - i,
    {
        v.remove(first);
        assert(v@ =~= s.subrange(0, first as int) + s.subrange(first + i + 1, s.len() as int));
        i = i + 1;
    }
}

/// The row to select after rows were removed from a list: none when it is
/// empty, else `index` clamped to the last row.
pub open spec fn clamped_selection(index: int, len: int) -> Option<usize> {
    if len == 0 { None } else if index < len - 1 { Some(index as usize) } else { Some((len - 1) as usize) }
}

/// The row to select after rows were removed from a list.
pub fn clamp_selection(index: usize, len: usize) -> (r: Option<usize>)
    ensures
        r == clamped_selection(index as int, len as int),
{
    if len == 0 { None } else if index < len - 1 { Some(index) } else { Some(len - 1) }
}

/// After removing rows, the selection stays on a row of the list.
pub proof fn lemma_clamped_selection_in_list(index: int, len: int)
    requires
        0 <= index,
        0 <= len,
    ensures
        clamped_selection(index, len) matches Some(i) ==> (i as int) < len,
        len > 0 ==> clamped_selection(index, len) is Some,
{
}

} // verus!
