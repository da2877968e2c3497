//! A one-line text field with a cursor.
use vstd::prelude::*;
use crate::keys::{Key, KeyCode};
use crate::text::{chars_of, string_of};

verus! {

/// A text field. The cursor counts characters from the start of the text.
#[derive(Debug)]
pub struct InputState {
    pub text: String,
    pub cursor: usize,
}

impl Default for InputState {
    fn default() -> (s: Self)
        ensures
            s.text@ == Seq::<char>::empty(),
            s.cursor == 0,
    {
        InputState { text: String::new(), cursor: 0 }
    }
}

/// What a key does to a text field: a character goes in at the cursor,
/// Backspace deletes the character before it, Left and Right move it
/// within the text; other keys change nothing.
pub open spec fn input_edited(o: InputState, f: InputState, key: Key) -> bool {
    match key.code {
        KeyCode::Char(c) => {
            &&& f.text@ == o.text@.insert(o.cursor as int, c)
            &&& f.cursor == o.cursor + 1
        },
        KeyCode::Backspace => if o.cursor > 0 {
            &&& f.text@ == o.text@.remove(o.cursor - 1)
            &&& f.cursor == o.cursor - 1
        } else {
            f.text == o.text && f.cursor == o.cursor
        },
        KeyCode::Left => f.text == o.text && f.cursor == (if o.cursor > 0 { o.cursor - 1 } else { 0 }),
        KeyCode::Right => f.text == o.text
            && f.cursor == (if o.cursor < o.text@.len() { o.cursor + 1 } else { o.cursor as int }),
        _ => f.text == o.text && f.cursor == o.cursor,
    }
}

impl InputState {
    /// Whether the cursor stands within the text.
    pub open spec fn cursor_in_text(&self) -> bool {
        self.cursor <= self.text@.len() && self.text@.len() < usize::MAX
    }

    /// An empty field.
    pub fn new() -> (s: Self)
        ensures
            s.text@ == Seq::<char>::empty(),
            s.cursor == 0,
    {
        InputState { text: String::new(), cursor: 0 }
    }

    /// A field holding `text`, with the cursor at its end.
    pub fn with_text(text: String) -> (s: Self)
        requires
            text@.len() < usize::MAX,
        ensures
            s.text == text,
            s.cursor == text@.len(),
    {
        let n = text.as_str().unicode_len();
        InputState { text, cursor: n }
    }

    /// Types a character at the cursor, deletes the one before it, or moves
    /// the cursor left or right; other keys do nothing.
    pub fn handle_key(&mut self, key: Key)
        requires
            old(self).cursor_in_text(),
        ensures
            final(self).cursor_in_text() || (key.code is Char && final(self).text@.len() == usize::MAX),
            input_edited(*old(self), *final(self), key),
    {
        match key.code {
            KeyCode::Char(c) => {
                let mut chars = chars_of(self.text.as_str());
                chars.insert(self.cursor, c);
                self.text = string_of(chars.as_slice());
                self.cursor = self.cursor + 1;
            },
            KeyCode::Backspace => {
                if self.cursor > 0 {
                    self.cursor = self.cursor - 1;
                    let mut chars = chars_of(self.text.as_str());
                    chars.remove(self.cursor);
                    self.text = string_of(chars.as_slice());
                }
            },
            KeyCode::Left => {
                if self.cursor > 0 {
                    self.cursor = self.cursor - 1;
                }
            },
            KeyCode::Right => {
                let n = self.text.as_str().unicode_len();
                if self.cursor < n {
                    self.cursor = self.cursor + 1;
                }
            },
            _ => {},
        }
    }

    /// Empties the field.
    pub fn clear(&mut self)
        ensures
            final(self).text@ == Seq::<char>::empty(),
            final(self).cursor == 0,
    {
        self.text = String::new();
        self.cursor = 0;
    }
}

/// Typing a character and then deleting it leaves the field as it was.
pub proof fn lemma_type_then_backspace(text: Seq<char>, cursor: int, c: char)
    requires
        0 <= cursor <= text.len(),
    ensures
        text.insert(cursor, c).remove(cursor) == text,
{
    assert(text.insert(cursor, c).remove(cursor) =~= text);
}

} // verus!
