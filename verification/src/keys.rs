//! A plain model of a key press, as the planner's handlers read it.
use vstd::prelude::*;

verus! {

/// The key that was pressed.
#[derive(Clone, Copy, Debug, PartialEq, Eq, Structural)]
pub enum KeyCode {
    Char(char),
    Enter,
    Esc,
    Backspace,
    Left,
    Right,
    Up,
    Down,
    Tab,
    BackTab,
    /// Any key that no handler reads.
    Other,
}

/// A key press: the key and whether Control was held.
#[derive(Clone, Copy, Debug, PartialEq, Eq, Structural)]
pub struct Key {
    pub code: KeyCode,
    pub ctrl: bool,
}

impl Key {
    /// A key press without modifiers.
    pub fn plain(code: KeyCode) -> (k: Key)
        ensures
            k == (Key { code, ctrl: false }),
    {
        Key { code, ctrl: false }
    }

    /// A key press with Control held.
    pub fn with_ctrl(code: KeyCode) -> (k: Key)
        ensures
            k == (Key { code, ctrl: true }),
    {
        Key { code, ctrl: true }
    }
}

} // verus!
