//! A one-line text field: a buffer of characters and a cursor in it.
//!
//! The cursor counts characters, not bytes. It stands before the character
//! with its index, so it runs from 0 to the length of the buffer.

use crate::key::Key;
use crate::tui::{input_handle, input_visual_scroll, visual_scroll_of};
use vstd::prelude::*;

verus! {

/// What an [`InputField`] is in contracts: its characters, and the position
/// of the cursor among them.
pub struct InputView {
    pub value: Seq<char>,
    pub cursor: int,
}

/// An edit that a text field can be asked for.
#[derive(Debug, Clone, Copy, PartialEq, Eq, Structural)]
pub enum EditRequest {
    /// Put a character in at the cursor and step over it.
    InsertChar(char),
    /// Take out the character before the cursor.
    DeletePrevChar,
    /// Move the cursor one character to the left.
    GoToPrevChar,
    /// Move the cursor one character to the right.
    GoToNextChar,
}

/// The edit that a key asks of a text field, if it asks for one: a character
/// is put in, Backspace deletes, and the arrows to the left and to the right
/// move the cursor.
pub open spec fn edit_for(key: Key) -> Option<EditRequest> {
    match key {
        Key::Char(c) => Some(EditRequest::InsertChar(c)),
        Key::Backspace => Some(EditRequest::DeletePrevChar),
        Key::Left => Some(EditRequest::GoToPrevChar),
        Key::Right => Some(EditRequest::GoToNextChar),
        _ => None,
    }
}

impl InputView {
    /// The invariant of the field: the cursor lies in the buffer or at its
    /// end.
    pub open spec fn wf(self) -> bool {
        0 <= self.cursor <= self.value.len()
    }

    /// The field with no text, the cursor at its start.
    pub open spec fn empty() -> InputView {
        InputView { value: Seq::empty(), cursor: 0 }
    }

    /// Where an edit takes place: at the cursor, or at the end of the buffer
    /// where the cursor lies behind it.
    pub open spec fn place(self) -> int {
        if self.cursor <= self.value.len() {
            self.cursor
        } else {
            self.value.len() as int
        }
    }

    /// The field with `c` put in at the cursor, and the cursor behind `c`.
    pub open spec fn insert_char(self, c: char) -> InputView {
        InputView { value: self.value.insert(self.place(), c), cursor: self.place() + 1 }
    }

    /// The field without the character before the cursor. At the start of
    /// the buffer nothing is taken out.
    pub open spec fn delete_back(self) -> InputView {
        if self.place() == 0 {
            InputView { value: self.value, cursor: self.place() }
        } else {
            InputView { value: self.value.remove(self.place() - 1), cursor: self.place() - 1 }
        }
    }

    /// The field with the cursor one character to the left, unless it is at
    /// the start.
    pub open spec fn cursor_left(self) -> InputView {
        InputView {
            value: self.value,
            cursor: if self.place() == 0 {
                self.place()
            } else {
                self.place() - 1
            },
        }
    }

    /// The field with the cursor one character to the right, unless it is at
    /// the end.
    pub open spec fn cursor_right(self) -> InputView {
        InputView {
            value: self.value,
            cursor: if self.place() == self.value.len() {
                self.place()
            } else {
                self.place() + 1
            },
        }
    }

    /// The field after the edit `request`.
    pub open spec fn handle(self, request: EditRequest) -> InputView {
        match request {
            EditRequest::InsertChar(c) => self.insert_char(c),
            EditRequest::DeletePrevChar => self.delete_back(),
            EditRequest::GoToPrevChar => self.cursor_left(),
            EditRequest::GoToNextChar => self.cursor_right(),
        }
    }

    /// The field after the key `key`: after the edit that the key asks for,
    /// and unchanged where it asks for none.
    pub open spec fn handle_key(self, key: Key) -> InputView {
        match edit_for(key) {
            Some(request) => self.handle(request),
            None => self,
        }
    }
}

/// An editable line of text with a cursor.
#[derive(Debug)]
pub struct InputField {
    value: String,
    cursor: usize,
}

impl View for InputField {
    type V = InputView;

    closed spec fn view(&self) -> InputView {
        InputView { value: self.value@, cursor: self.cursor as int }
    }
}

impl Default for InputField {
    fn default() -> (field: Self)
        ensures
            field@ == InputView::empty(),
    {
        InputField::new()
    }
}

impl InputField {
    /// An empty field.
    pub fn new() -> (field: Self)
        ensures
            field@ == InputView::empty(),
    {
        InputField { value: String::new(), cursor: 0 }
    }

    /// The text of the field.
    pub fn value(&self) -> (value: &str)
        ensures
            value@ == self@.value,
    {
        self.value.as_str()
    }

    /// The position of the cursor, in characters from the start.
    pub fn cursor(&self) -> (cursor: usize)
        ensures
            cursor == self@.cursor,
    {
        self.cursor
    }

    /// How many cells the text has to be scrolled to the left for the cursor
    /// to be seen in a field `width` cells wide.
    pub fn visual_scroll(&self, width: usize) -> (scroll: usize)
        ensures
            scroll == visual_scroll_of(self@.value, self@.cursor, width as int),
    {
        input_visual_scroll(self.value.as_str(), self.cursor, width)
    }

    /// Empties the field and puts the cursor at its start.
    pub fn reset(&mut self)
        ensures
            final(self)@ == InputView::empty(),
    {
        self.value = String::new();
        self.cursor = 0;
    }

    /// Carries out the edit `request` on the field.
    pub fn handle(&mut self, request: EditRequest)
        ensures
            final(self)@ == old(self)@.handle(request),
            final(self)@.wf(),
    {
        let (value, cursor) = input_handle(self.value.as_str(), self.cursor, request);
        self.value = value;
        self.cursor = cursor;
    }

    /// Carries out the edit that `key` asks for. A key that asks for none
    /// leaves the field as it is.
    pub fn handle_key(&mut self, key: Key)
        ensures
            final(self)@ == old(self)@.handle_key(key),
            old(self)@.wf() ==> final(self)@.wf(),
    {
        match key {
            Key::Char(c) => self.insert_char(c),
            Key::Backspace => self.delete_back(),
            Key::Left => self.cursor_left(),
            Key::Right => self.cursor_right(),
            _ => {},
        }
    }

    /// Puts `c` in at the cursor and moves the cursor behind it.
    pub fn insert_char(&mut self, c: char)
        ensures
            final(self)@ == old(self)@.insert_char(c),
            final(self)@.wf(),
    {
        self.handle(EditRequest::InsertChar(c));
    }

    /// Takes out the character before the cursor, if there is one.
    pub fn delete_back(&mut self)
        ensures
            final(self)@ == old(self)@.delete_back(),
            final(self)@.wf(),
    {
        self.handle(EditRequest::DeletePrevChar);
    }

    /// Moves the cursor one character to the left, if it is not at the start.
    pub fn cursor_left(&mut self)
        ensures
            final(self)@ == old(self)@.cursor_left(),
            final(self)@.wf(),
    {
        self.handle(EditRequest::GoToPrevChar);
    }

    /// Moves the cursor one character to the right, if it is not at the end.
    pub fn cursor_right(&mut self)
        ensures
            final(self)@ == old(self)@.cursor_right(),
            final(self)@.wf(),
    {
        self.handle(EditRequest::GoToNextChar);
    }
}

} // verus!
