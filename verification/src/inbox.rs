//! Entries of the inbox.
use vstd::prelude::*;
use crate::types::Priority;

verus! {

/// An inbox entry: a note and how urgent it is.
#[derive(Debug)]
pub struct InboxItemInfo {
    pub input: String,
    pub priority: Priority,
}

/// What is stored of an inbox entry.
#[derive(Debug, PartialEq, Eq)]
pub struct InboxItemInfoData {
    pub input: String,
    pub priority: Priority,
}

impl InboxItemInfo {
    /// What to store of the entry.
    pub fn to_data(&self) -> (d: InboxItemInfoData)
        ensures
            d.input == self.input,
            d.priority == self.priority,
    {
        InboxItemInfoData { input: self.input.clone(), priority: self.priority }
    }

    /// The entry that was stored.
    pub fn from_data(data: InboxItemInfoData) -> (i: InboxItemInfo)
        ensures
            i.input == data.input,
            i.priority == data.priority,
    {
        InboxItemInfo { input: data.input, priority: data.priority }
    }
}

} // verus!
