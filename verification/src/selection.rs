//! The selection of a list or table: which row is selected and how far the
//! view is scrolled.
use vstd::prelude::*;

verus! {

/// Something that holds a selected row.
pub trait Selectable {
    /// The row that is selected, if any.
    spec fn selection(&self) -> Option<usize>;

    /// Selects `index`.
    fn select(&mut self, index: Option<usize>)
        ensures
            final(self).selection() == index,
    ;
}

/// The state of a list or table view: the selected row and the first row
/// shown.
#[derive(Clone, Copy, Debug, PartialEq, Eq, Structural)]
pub struct SelectionState {
    pub selected: Option<usize>,
    pub offset: usize,
}

impl SelectionState {
    /// A view with nothing selected, scrolled to the top.
    pub fn new() -> (s: SelectionState)
        ensures
            s.selected is None,
            s.offset == 0,
    {
        SelectionState { selected: None, offset: 0 }
    }

    /// A view with `index` selected, scrolled to the top.
    pub fn with_selected(index: Option<usize>) -> (s: SelectionState)
        ensures
            s.selected == index,
            s.offset == 0,
    {
        SelectionState { selected: index, offset: 0 }
    }

    /// The selected row.
    pub fn selected(&self) -> (r: Option<usize>)
        ensures
            r == self.selected,
    {
        self.selected
    }

    /// The first row shown.
    pub fn offset(&self) -> (r: usize)
        ensures
            r == self.offset,
    {
        self.offset
    }

    /// Sets the first row shown.
    pub fn set_offset(&mut self, offset: usize)
        ensures
            final(self).offset == offset,
            final(self).selected == old(self).selected,
    {
        self.offset = offset;
    }
}

impl Selectable for SelectionState {
    open spec fn selection(&self) -> Option<usize> {
        self.selected
    }

    /// Selects `index`; clearing the selection also scrolls back to the top.
    fn select(&mut self, index: Option<usize>)
        ensures
            final(self).selected == index,
            final(self).offset == if index is None { 0 } else { old(self).offset },
    {
        self.selected = index;
        if index.is_none() {
            self.offset = 0;
        }
    }
}

} // verus!
