//! A line of text that is edited at a cursor.

use crate::text::{chars_of, string_of};
use vstd::prelude::*;

verus! {

/// A text field as contracts see it.
pub struct FieldView {
    pub text: Seq<char>,
    /// How many characters stand before the cursor.
    pub cursor: int,
}

impl FieldView {
    /// Whether the cursor stands in the text or at its end.
    pub open spec fn wf(self) -> bool {
        0 <= self.cursor <= self.text.len()
    }

    /// The field after `c` was typed: it stands before the cursor.
    pub open spec fn typed(self, c: char) -> FieldView {
        FieldView { text: self.text.insert(self.cursor, c), cursor: self.cursor + 1 }
    }

    /// The field after the character before the cursor was rubbed out.
    pub open spec fn rubbed_out(self) -> FieldView {
        if self.cursor > 0 {
            FieldView { text: self.text.remove(self.cursor - 1), cursor: self.cursor - 1 }
        } else {
            self
        }
    }

    /// The field after the character at the cursor was deleted.
    pub open spec fn deleted(self) -> FieldView {
        if self.cursor < self.text.len() {
            FieldView { text: self.text.remove(self.cursor), ..self }
        } else {
            self
        }
    }

    /// The field with the cursor at `cursor`, or at the end if that lies beyond it.
    pub open spec fn at(self, cursor: int) -> FieldView {
        FieldView {
            cursor: if cursor > self.text.len() {
                self.text.len() as int
            } else if cursor < 0 {
                0
            } else {
                cursor
            },
            ..self
        }
    }
}

/// A line of text with a cursor.
#[derive(Debug, Clone)]
pub struct TextField {
    chars: Vec<char>,
    cursor: usize,
}

impl View for TextField {
    type V = FieldView;

    closed spec fn view(&self) -> FieldView {
        FieldView { text: self.chars@, cursor: self.cursor as int }
    }
}

impl TextField {
    /// An empty field.
    pub fn new() -> (r: TextField)
        ensures
            r@ == (FieldView { text: Seq::empty(), cursor: 0 }),
            r@.wf(),
    {
        TextField { chars: Vec::new(), cursor: 0 }
    }

    /// A field that holds `text`, with the cursor at its end.
    pub fn with_text(text: &str) -> (r: TextField)
        ensures
            r@ == (FieldView { text: text@, cursor: text@.len() as int }),
            r@.wf(),
    {
        let chars = chars_of(text);
        let cursor = chars.len();
        TextField { chars, cursor }
    }

    /// Replaces the content by `text` and puts the cursor at its end.
    pub fn set(&mut self, text: &str)
        ensures
            final(self)@ == (FieldView { text: text@, cursor: text@.len() as int }),
            final(self)@.wf(),
    {
        self.chars = chars_of(text);
        self.cursor = self.chars.len();
    }

    /// Empties the field.
    pub fn clear(&mut self)
        ensures
            final(self)@ == (FieldView { text: Seq::empty(), cursor: 0 }),
            final(self)@.wf(),
    {
        self.chars = Vec::new();
        self.cursor = 0;
    }

    /// Whether the cursor stands in the text or at its end.
    pub fn is_wf(&self) -> (r: bool)
        ensures
            r == self@.wf(),
    {
        self.cursor <= self.chars.len()
    }

    /// The content.
    pub fn text(&self) -> (r: String)
        ensures
            r@ == self@.text,
    {
        string_of(self.chars.as_slice())
    }

    /// The content, character by character.
    pub fn chars(&self) -> (r: &[char])
        ensures
            r@ == self@.text,
    {
        self.chars.as_slice()
    }

    /// How many characters stand before the cursor.
    pub fn cursor(&self) -> (r: usize)
        ensures
            r == self@.cursor,
    {
        self.cursor
    }

    /// How many characters the field holds.
    pub fn len(&self) -> (r: usize)
        ensures
            r == self@.text.len(),
    {
        self.chars.len()
    }

    /// Whether the field is empty.
    pub fn is_empty(&self) -> (r: bool)
        ensures
            r == (self@.text.len() == 0),
    {
        self.chars.len() == 0
    }

    /// Puts `c` in before the cursor. A field that can hold no more stays as it is.
    pub fn insert(&mut self, c: char)
        requires
            old(self)@.wf(),
        ensures
            final(self)@.wf(),
            final(self)@ == if old(self)@.text.len() < usize::MAX {
                old(self)@.typed(c)
            } else {
                old(self)@
            },
    {
        if self.chars.len() < usize::MAX {
            self.chars.insert(self.cursor, c);
            self.cursor = self.cursor + 1;
        }
    }

    /// Rubs out the character before the cursor. Returns whether there was one.
    pub fn backspace(&mut self) -> (r: bool)
        requires
            old(self)@.wf(),
        ensures
            final(self)@.wf(),
            final(self)@ == old(self)@.rubbed_out(),
            r == (old(self)@.cursor > 0),
    {
        if self.cursor > 0 {
            self.cursor = self.cursor - 1;
            self.chars.remove(self.cursor);
            true
        } else {
            false
        }
    }

    /// Deletes the character at the cursor. Returns whether there was one.
    pub fn delete(&mut self) -> (r: bool)
        requires
            old(self)@.wf(),
        ensures
            final(self)@.wf(),
            final(self)@ == old(self)@.deleted(),
            r == (old(self)@.cursor < old(self)@.text.len()),
    {
        if self.cursor < self.chars.len() {
            self.chars.remove(self.cursor);
            true
        } else {
            false
        }
    }

    /// Moves the cursor one character to the left, if it is not at the start.
    pub fn move_left(&mut self)
        requires
            old(self)@.wf(),
        ensures
            final(self)@.wf(),
            final(self)@ == old(self)@.at(old(self)@.cursor - 1),
    {
        if self.cursor > 0 {
            self.cursor = self.cursor - 1;
        }
    }

    /// Moves the cursor one character to the right, if it is not at the end.
    pub fn move_right(&mut self)
        requires
            old(self)@.wf(),
        ensures
            final(self)@.wf(),
            final(self)@ == old(self)@.at(old(self)@.cursor + 1),
    {
        if self.cursor < self.chars.len() {
            self.cursor = self.cursor + 1;
        }
    }

    /// Moves the cursor to the start.
    pub fn move_home(&mut self)
        ensures
            final(self)@.wf(),
            final(self)@ == old(self)@.at(0),
    {
        self.cursor = 0;
    }

    /// Moves the cursor to the end.
    pub fn move_end(&mut self)
        ensures
            final(self)@.wf(),
            final(self)@ == old(self)@.at(old(self)@.text.len() as int),
    {
        self.cursor = self.chars.len();
    }
}

/// Typing a character and rubbing it out again leaves the field as it was.
pub proof fn lemma_type_and_rub_out(f: FieldView, c: char)
    requires
        f.wf(),
    ensures
        f.typed(c).wf(),
        f.typed(c).rubbed_out() == f,
        f.rubbed_out().wf() && f.deleted().wf(),
{
    assert(f.text.insert(f.cursor, c).remove(f.cursor) =~= f.text);
}

} // verus!
