//! Moving a block of rows to another place in a list.
use vstd::prelude::*;
use crate::keys::{Key, KeyCode};
use crate::selection::Selectable;

verus! {

/// Which list a move is working on.
#[derive(Clone, Copy, Debug, PartialEq, Eq, Structural)]
pub enum MoveTarget {
    Tasks,
    PresetTasks,
    KnownTasks,
}

/// A move in progress: the block `first..=last` and the gap it will be
/// dropped into (`position` counts gaps, from 0 before the first row to the
/// list's length after the last).
#[derive(Clone, Copy, Debug, PartialEq, Eq, Structural)]
pub struct MoveState {
    pub first: Option<usize>,
    pub last: Option<usize>,
    pub position: Option<usize>,
    pub target: Option<MoveTarget>,
}

/// The state with no move in progress.
pub open spec fn idle_move() -> MoveState {
    MoveState { first: None, last: None, position: None, target: None }
}

impl Default for MoveState {
    fn default() -> (s: Self)
        ensures
            s == idle_move(),
    {
        MoveState { first: None, last: None, position: None, target: None }
    }
}

impl MoveState {
    /// Whether a move is in progress.
    pub fn is_moving(&self) -> (r: bool)
        ensures
            r == self.position is Some,
    {
        self.position.is_some()
    }
}

/// The block that a move starts with: the selected row alone, or the rows
/// between the visual-mode anchor and the selected row.
pub open spec fn block_bounds(selected: usize, visual_start: Option<usize>) -> (usize, usize) {
    match visual_start {
        Some(s) => (if s <= selected { s } else { selected }, if s <= selected { selected } else { s }),
        None => (selected, selected),
    }
}

/// The gap a move starts at: the block's own edge, on the side of the
/// selected row, unless that edge is the list's edge.
pub open spec fn start_position(index: int, first: int, last: int, len: int) -> int {
    if index == first {
        if first == 0 { last + 1 } else { index }
    } else {
        if last == len - 1 { first } else { index + 1 }
    }
}

/// Whether `start` can run on these values without overflow.
pub open spec fn start_in_range(selected: Option<usize>, visual_start: Option<usize>) -> bool {
    selected matches Some(i) ==> block_bounds(i, visual_start).1 < usize::MAX
}

/// Starts moving the selected row, or in visual mode the selected block.
/// Nothing happens when nothing is selected or the list is empty.
pub fn start(
    state: &mut MoveState,
    selected: Option<usize>,
    visual_start: Option<usize>,
    len: usize,
    target: MoveTarget,
)
    requires
        start_in_range(selected, visual_start),
    ensures
        match selected {
            None => *final(state) == *old(state),
            Some(index) => if len == 0 {
                *final(state) == *old(state)
            } else {
                let (f, l) = block_bounds(index, visual_start);
                &&& final(state).first == Some(f)
                &&& final(state).last == Some(l)
                &&& final(state).target == Some(target)
                &&& final(state).position == Some(start_position(index as int, f as int, l as int, len as int) as usize)
            },
        },
{
    let index = match selected {
        Some(i) => i,
        None => return,
    };
    if len == 0 {
        return;
    }
    let (beginning_selected_row, end_selected_row) = match visual_start {
        Some(s) => (if s <= index { s } else { index }, if s <= index { index } else { s }),
        None => (index, index),
    };
    state.first = Some(beginning_selected_row);
    state.last = Some(end_selected_row);
    state.target = Some(target);
    if index == beginning_selected_row {
        if beginning_selected_row == 0 {
            state.position = Some(end_selected_row + 1);
        } else {
            state.position = Some(index);
        }
    } else {
        if end_selected_row == len - 1 {
            state.position = Some(beginning_selected_row);
        } else {
            state.position = Some(index + 1);
        }
    }
}

/// Where the block lands in the list once it has been taken out: gaps after
/// the block close up by its length, gaps inside it fall to its start, and
/// the result is clamped to the end of what is left.
pub open spec fn moved_position(first: int, last: int, position: int, len: int) -> int {
    let k = last - first + 1;
    let p = if position > last {
        position - k
    } else if position >= first {
        first
    } else {
        position
    };
    if p < len - k { p } else { len - k }
}

/// The list after moving `s[first..=last]` to gap `position`.
pub open spec fn moved<T>(s: Seq<T>, first: int, last: int, position: int) -> Seq<T> {
    let rest = s.subrange(0, first) + s.subrange(last + 1, s.len() as int);
    let block = s.subrange(first, last + 1);
    let p = moved_position(first, last, position, s.len() as int);
    rest.subrange(0, p) + block + rest.subrange(p, rest.len() as int)
}

/// Moves `items[first..=last]` to gap `position` and returns the index where
/// the block now starts. An invalid block leaves the list alone and returns
/// `first`.
pub fn move_items<T>(items: &mut Vec<T>, first: usize, last: usize, position: usize) -> (r: usize)
    ensures
        if first > last || last >= old(items).len() {
            r == first && final(items)@ == old(items)@
        } else {
            &&& r == moved_position(first as int, last as int, position as int, old(items).len() as int)
            &&& final(items)@ == moved(old(items)@, first as int, last as int, position as int)
            &&& final(items)@.subrange(r as int, r + last - first + 1) == old(items)@.subrange(first as int, last + 1)
            &&& position < first ==> r == position
            &&& first <= position <= last + 1 ==> r == first && final(items)@ == old(items)@
        },
{
    if first > last || last >= items.len() {
        return first;
    }
    let ghost s = items@;
    let ghost n = s.len() as int;
    let count = last - first + 1;
    let mut moved_out: Vec<T> = Vec::new();
    let mut i: usize = 0;
    while i < count
        invariant
            first <= last < n,
            count == last - first + 1,
            0 <= i <= count,
            s == old(items)@,
            n == s.len(),
            items@ == s.subrange(0, first as int) + s.subrange(first + i, n),
            moved_out@ == s.subrange(first as int, first + i),
        decreases count - i,
    {
        let ghost before = items@;
        let x = items.remove(first);
        moved_out.push(x);
        assert(items@ =~= s.subrange(0, first as int) + s.subrange(first + i + 1, n));
        assert(moved_out@ =~= s.subrange(first as int, first + i + 1));
        i = i + 1;
    }
    let ghost rest = items@;
    assert(rest =~= s.subrange(0, first as int) + s.subrange(last + 1, n));
    let ghost pos0 = position;
    let mut position = position;
    if position > last {
        position = position - count;
    } else if position >= first {
        position = first;
    }
    if position > items.len() {
        position = items.len();
    }
    assert(position == moved_position(first as int, last as int, pos0 as int, n));
    let ghost block = moved_out@;
    let mut j: usize = 0;
    while j < count
        invariant
            count == block.len(),
            0 <= j <= count,
            position <= rest.len(),
            moved_out@ == block.subrange(j as int, count as int),
            items@ == rest.subrange(0, position as int) + block.subrange(0, j as int)
                + rest.subrange(position as int, rest.len() as int),
        decreases count - j,
    {
        let x = moved_out.remove(0);
        assert(x == block[j as int]);
        assert(items@.len() == rest.len() + j);
        assert(items.len() == items@.len());
        items.insert(position + j, x);
        assert(items@ =~= rest.subrange(0, position as int) + block.subrange(0, j + 1)
            + rest.subrange(position as int, rest.len() as int));
        assert(moved_out@ =~= block.subrange(j + 1, count as int));
        j = j + 1;
    }
    assert(block.subrange(0, count as int) =~= block);
    proof { lemma_move_lands_at_gap(s, first as int, last as int, pos0 as int); }
    position
}


/// Moving the block `s[first..=last]` to gap `position` keeps every row and
/// the order of the rows outside the block, and puts the block, in its own
/// order, where the gap was: at `position` itself for a gap before the
/// block (the rows before it keep their places), at `first` for a gap
/// inside it, and `last - first + 1` places earlier for a gap after it,
/// never past the end. The returned index is where the block now starts.
pub proof fn lemma_move_lands_at_gap<T>(s: Seq<T>, first: int, last: int, position: int)
    requires
        0 <= first <= last < s.len(),
        0 <= position,
    ensures
        ({
            let k = last - first + 1;
            let r = moved_position(first, last, position, s.len() as int);
            let m = moved(s, first, last, position);
            &&& m.len() == s.len()
            &&& 0 <= r <= s.len() - k
            &&& m.subrange(r, r + k) == s.subrange(first, last + 1)
            &&& m.subrange(0, r) + m.subrange(r + k, m.len() as int)
                == s.subrange(0, first) + s.subrange(last + 1, s.len() as int)
            &&& position < first ==> r == position && m.subrange(0, position) == s.subrange(0, position)
            &&& first <= position <= last + 1 ==> r == first && m == s
            &&& position > last ==> r == (if position - k < s.len() - k { position - k } else { s.len() - k })
        }),
{
    let k = last - first + 1;
    let n = s.len() as int;
    let r = moved_position(first, last, position, n);
    let rest = s.subrange(0, first) + s.subrange(last + 1, n);
    let block = s.subrange(first, last + 1);
    let m = moved(s, first, last, position);
    assert(rest.len() == n - k);
    assert(m =~= rest.subrange(0, r) + block + rest.subrange(r, rest.len() as int));
    assert(m.subrange(r, r + k) =~= block);
    assert(m.subrange(0, r) =~= rest.subrange(0, r));
    assert(m.subrange(r + k, n) =~= rest.subrange(r, rest.len() as int));
    assert(rest.subrange(0, r) + rest.subrange(r, rest.len() as int) =~= rest);
    if position < first {
        assert(m.subrange(0, position) =~= s.subrange(0, position));
    }
    if first <= position <= last + 1 {
        assert(m =~= s);
    }
}

/// Drops the block into its gap, selects the row where it now starts and
/// ends the move. Nothing happens when no move is in progress.
pub fn finish<T, S: Selectable>(state: &mut MoveState, items: &mut Vec<T>, selection: &mut S)
    ensures
        match (old(state).first, old(state).last, old(state).position) {
            (Some(f), Some(l), Some(p)) => {
                &&& *final(state) == idle_move()
                &&& if f > l || l >= old(items).len() {
                    final(items)@ == old(items)@ && final(selection).selection() == Some(f)
                } else {
                    &&& final(items)@ == moved(old(items)@, f as int, l as int, p as int)
                    &&& final(selection).selection() == Some(moved_position(f as int, l as int, p as int, old(items).len() as int) as usize)
                }
            },
            _ => *final(state) == *old(state) && final(items)@ == old(items)@ && *final(selection) == *old(selection),
        },
{
    let (first, last, position) = match (state.first, state.last, state.position) {
        (Some(f), Some(l), Some(p)) => (f, l, p),
        _ => return,
    };
    let new_position = move_items(items, first, last, position);
    selection.select(Some(new_position));
    *state = MoveState::default();
}

/// Whether the arrow keys can run on this move without underflow: a move in
/// progress needs a non-empty list and an ordered block.
pub open spec fn move_keys_in_range(s: MoveState, len: nat) -> bool {
    (s.first is Some && s.last is Some && s.position is Some) ==> {
        &&& len > 0
        &&& s.first->0 <= s.last->0
        &&& s.last->0 < usize::MAX
    }
}

/// The gap one step down, or `None` when the block is already at the
/// bottom and the step would land inside it.
pub open spec fn down_position(first: int, last: int, position: int, len: int) -> Option<int> {
    let next = if position < usize::MAX { position + 1 } else { position };
    if next > first && next <= last {
        if len - 1 == last {
            None
        } else {
            Some(if last + 1 < len { last + 1 } else { len })
        }
    } else {
        Some(if next < len { next } else { len })
    }
}

/// The gap one step up, or `None` when the block is already at the top and
/// the step would land inside it.
pub open spec fn up_position(first: int, last: int, position: int) -> Option<int> {
    let previous = if position > 0 { position - 1 } else { 0 };
    if previous >= first && previous <= last {
        if first == 0 { None } else { Some(first) }
    } else {
        Some(previous)
    }
}

/// Moves the drop gap one step down, skipping over the block itself.
/// Returns whether the gap moved.
pub fn move_down<T>(state: &mut MoveState, items: &[T]) -> (r: bool)
    requires
        move_keys_in_range(*old(state), items@.len()),
    ensures
        match (old(state).first, old(state).last, old(state).position) {
            (Some(f), Some(l), Some(p)) => match down_position(f as int, l as int, p as int, items@.len() as int) {
                Some(q) => r && *final(state) == (MoveState { position: Some(q as usize), ..*old(state) }),
                None => !r && *final(state) == *old(state),
            },
            _ => !r && *final(state) == *old(state),
        },
{
    let (first, last, position) = match (state.first, state.last, state.position) {
        (Some(f), Some(l), Some(p)) => (f, l, p),
        _ => return false,
    };
    let last_item = items.len() - 1;
    let mut next = if position < usize::MAX { position + 1 } else { position };
    if next > first && next <= last {
        if last_item == last {
            return false;
        }
        next = last + 1;
    }
    state.position = Some(if next < items.len() { next } else { items.len() });
    true
}

/// Moves the drop gap one step up, skipping over the block itself.
/// Returns whether the gap moved.
pub fn move_up<T>(state: &mut MoveState, items: &[T]) -> (r: bool)
    ensures
        match (old(state).first, old(state).last, old(state).position) {
            (Some(f), Some(l), Some(p)) => match up_position(f as int, l as int, p as int) {
                Some(q) => r && *final(state) == (MoveState { position: Some(q as usize), ..*old(state) }),
                None => !r && *final(state) == *old(state),
            },
            _ => !r && *final(state) == *old(state),
        },
{
    let (first, last, position) = match (state.first, state.last, state.position) {
        (Some(f), Some(l), Some(p)) => (f, l, p),
        _ => return false,
    };
    let mut previous = if position > 0 { position - 1 } else { 0 };
    if previous >= first && previous <= last {
        if first == 0 {
            return false;
        }
        previous = first;
    }
    state.position = Some(previous);
    true
}

/// What a key does while a move is in progress, to the move, the list,
/// its selection and the pending command: `j`/`k` step the gap, `G` and
/// `gg` jump to the bottom and top, Enter drops the block, `q` cancels,
/// other keys do nothing.
pub open spec fn move_key_effect<T, S: Selectable>(
    os: MoveState, oi: Seq<T>, osel: S, op: Option<char>, key: Key,
    fs: MoveState, fi: Seq<T>, fsel: S, fp: Option<char>,
) -> bool {
    match key.code {
        KeyCode::Char('j') => {
            &&& fi == oi && fsel == osel
            &&& fp == op
            &&& match (os.first, os.last, os.position) {
                (Some(f), Some(l), Some(p)) => match down_position(f as int, l as int, p as int, oi.len() as int) {
                    Some(q) => fs == (MoveState { position: Some(q as usize), ..os }),
                    None => fs == os,
                },
                _ => fs == os,
            }
        },
        KeyCode::Char('k') => {
            &&& fi == oi && fsel == osel
            &&& fp == op
            &&& match (os.first, os.last, os.position) {
                (Some(f), Some(l), Some(p)) => match up_position(f as int, l as int, p as int) {
                    Some(q) => fs == (MoveState { position: Some(q as usize), ..os }),
                    None => fs == os,
                },
                _ => fs == os,
            }
        },
        KeyCode::Char('G') => {
            &&& fi == oi && fsel == osel
            &&& fp == op
            &&& fs == (MoveState { position: Some(oi.len() as usize), ..os })
        },
        KeyCode::Char('g') => {
            &&& fi == oi && fsel == osel
            &&& if op == Some('g') {
                &&& fs == (MoveState { position: Some(0), ..os })
                &&& fp is None
            } else {
                fs == os && fp == Some('g')
            }
        },
        KeyCode::Enter => {
            &&& fp == op
            &&& match (os.first, os.last, os.position) {
                (Some(f), Some(l), Some(p)) => {
                    &&& fs == idle_move()
                    &&& if f > l || l >= oi.len() {
                        fi == oi && fsel.selection() == Some(f)
                    } else {
                        &&& fi == moved(oi, f as int, l as int, p as int)
                        &&& fsel.selection() == Some(moved_position(f as int, l as int, p as int, oi.len() as int) as usize)
                    }
                },
                _ => fs == os && fi == oi && fsel == osel,
            }
        },
        KeyCode::Char('q') => {
            &&& fs == idle_move()
            &&& fi == oi && fsel == osel
            &&& fp == op
        },
        _ => {
            &&& fs == os
            &&& fi == oi && fsel == osel
            &&& fp == op
        },
    }
}

/// Whether a key is used while a move is in progress.
pub open spec fn move_key_used(key: Key) -> bool {
    match key.code {
        KeyCode::Char('j') | KeyCode::Char('k') | KeyCode::Char('G') | KeyCode::Char('g') | KeyCode::Enter | KeyCode::Char('q') => true,
        _ => false,
    }
}

/// Handles a key while a move is in progress: `j`/`k` step the gap,
/// `G` and `gg` jump to the bottom and top, Enter drops the block, `q`
/// cancels. Returns whether the key was used.
pub fn handle_keys<T, S: Selectable>(
    state: &mut MoveState,
    items: &mut Vec<T>,
    selection: &mut S,
    pending_command: &mut Option<char>,
    key: Key,
) -> (r: bool)
    requires
        key.code == KeyCode::Char('j') ==> move_keys_in_range(*old(state), old(items)@.len()),
    ensures
        r == move_key_used(key),
        move_key_effect(*old(state), old(items)@, *old(selection), *old(pending_command), key,
            *final(state), final(items)@, *final(selection), *final(pending_command)),
{
    match key.code {
        KeyCode::Char('j') => {
            move_down(state, items.as_slice());
            true
        },
        KeyCode::Char('k') => {
            move_up(state, items.as_slice());
            true
        },
        KeyCode::Char('G') => {
            state.position = Some(items.len());
            true
        },
        KeyCode::Char('g') => {
            if *pending_command == Some('g') {
                state.position = Some(0);
                *pending_command = None;
            } else {
                *pending_command = Some('g');
            }
            true
        },
        KeyCode::Enter => {
            finish(state, items, selection);
            true
        },
        KeyCode::Char('q') => {
            *state = MoveState::default();
            true
        },
        _ => false,
    }
}

/// Moving a block only reorders the list: it keeps its length and the
/// same items, each as often as before.
pub proof fn lemma_moved_is_permutation<T>(s: Seq<T>, first: int, last: int, position: int)
    requires
        0 <= first <= last < s.len(),
        0 <= position,
    ensures
        moved(s, first, last, position).len() == s.len(),
        moved(s, first, last, position).to_multiset() == s.to_multiset(),
{
    let s1 = s.subrange(0, first);
    let s3 = s.subrange(last + 1, s.len() as int);
    let rest = s1 + s3;
    let block = s.subrange(first, last + 1);
    let p = moved_position(first, last, position, s.len() as int);
    let a = rest.subrange(0, p);
    let b = rest.subrange(p, rest.len() as int);
    assert(rest =~= a + b);
    assert(s =~= s1 + block + s3);
    vstd::seq_lib::lemma_multiset_commutative(a + block, b);
    vstd::seq_lib::lemma_multiset_commutative(a, block);
    vstd::seq_lib::lemma_multiset_commutative(a, b);
    vstd::seq_lib::lemma_multiset_commutative(s1, s3);
    vstd::seq_lib::lemma_multiset_commutative(s1 + block, s3);
    vstd::seq_lib::lemma_multiset_commutative(s1, block);
    let ma = a.to_multiset();
    let mb = b.to_multiset();
    let mk = block.to_multiset();
    let m1 = s1.to_multiset();
    let m3 = s3.to_multiset();
    assert(ma.add(mb) == m1.add(m3));
    assert(moved(s, first, last, position) == a + block + b);
    assert(moved(s, first, last, position).to_multiset() == ma.add(mk).add(mb));
    assert(s.to_multiset() == m1.add(mk).add(m3));
    assert(ma.add(mk).add(mb) =~= ma.add(mb).add(mk));
    assert(m1.add(mk).add(m3) =~= m1.add(m3).add(mk));
}

/// After a move the block sits, whole and in order, at the index that
/// `move_items` returns.
pub proof fn lemma_moved_block_is_contiguous<T>(s: Seq<T>, first: int, last: int, position: int)
    requires
        0 <= first <= last < s.len(),
        0 <= position,
    ensures
        ({
            let p = moved_position(first, last, position, s.len() as int);
            &&& 0 <= p <= s.len() - (last - first + 1)
            &&& moved(s, first, last, position).subrange(p, p + last - first + 1) == s.subrange(first, last + 1)
        }),
{
    let rest = s.subrange(0, first) + s.subrange(last + 1, s.len() as int);
    let block = s.subrange(first, last + 1);
    let p = moved_position(first, last, position, s.len() as int);
    let m = moved(s, first, last, position);
    assert(m.subrange(p, p + last - first + 1) =~= block);
}

/// Dropping a block into a gap at its own edges, or inside it, leaves the
/// list as it was.
pub proof fn lemma_move_within_block_is_identity<T>(s: Seq<T>, first: int, last: int, position: int)
    requires
        0 <= first <= last < s.len(),
        first <= position <= last + 1,
    ensures
        moved(s, first, last, position) == s,
        moved_position(first, last, position, s.len() as int) == first,
{
    assert(moved(s, first, last, position) =~= s);
}

/// A move starts at a gap on the block's edge, so finishing it at once
/// leaves the list unchanged.
pub proof fn lemma_start_then_finish_is_identity<T>(s: Seq<T>, selected: usize, visual_start: Option<usize>)
    requires
        (selected as int) < s.len(),
        visual_start matches Some(v) ==> (v as int) < s.len(),
    ensures
        ({
            let (f, l) = block_bounds(selected, visual_start);
            let p = start_position(selected as int, f as int, l as int, s.len() as int);
            &&& f <= l < s.len()
            &&& (p == f || p == l + 1)
            &&& moved(s, f as int, l as int, p) == s
        }),
{
    let (f, l) = block_bounds(selected, visual_start);
    let p = start_position(selected as int, f as int, l as int, s.len() as int);
    lemma_move_within_block_is_identity(s, f as int, l as int, p);
}

} // verus!
