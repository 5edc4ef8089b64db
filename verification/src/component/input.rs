//! A line of typed text.

use vstd::prelude::*;
use crate::event::{KeyCode, KeyEvent};

verus! {

/// The text after `key` is typed at the end of `text`: a character is added,
/// backspace takes the last character away, and any other key changes
/// nothing.
pub open spec fn typed(text: Seq<char>, key: KeyEvent) -> Seq<char> {
    match key.code {
        KeyCode::Backspace => if text.len() > 0 {
            text.drop_last()
        } else {
            text
        },
        KeyCode::Char(c) => text.push(c),
        _ => text,
    }
}

/// A line of text that grows and shrinks at its end as keys are pressed.
pub struct Input {
    buffer: String,
}

impl View for Input {
    type V = Seq<char>;

    /// The text typed so far.
    closed spec fn view(&self) -> Seq<char> {
        self.buffer@
    }
}

impl Input {
    /// An input with no text.
    pub fn new() -> (input: Self)
        ensures
            input@ == Seq::<char>::empty(),
    {
        Self { buffer: String::new() }
    }

    /// Takes a key press: a character is added at the end, and backspace
    /// removes the last character, if there is one.
    pub fn on_key_event(&mut self, key_event: KeyEvent)
        ensures
            final(self)@ == typed(old(self)@, key_event),
    {
        match key_event.code {
            KeyCode::Backspace => {
                self.buffer.pop();
            },
            KeyCode::Char(c) => self.buffer.push(c),
            _ => (),
        }
    }

    /// Removes all the text.
    pub fn clear(&mut self)
        ensures
            final(self)@ == Seq::<char>::empty(),
    {
        self.buffer.clear()
    }

    /// The text typed so far.
    pub fn buffer(&self) -> (text: &str)
        ensures
            text@ == self@,
    {
        self.buffer.as_str()
    }
}

} // verus!
