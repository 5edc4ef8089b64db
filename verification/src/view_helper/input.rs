//! A line of text with a caret, for a field that the user types into.

use vstd::prelude::*;
use vstd::utf8::{
    decode_utf8, encode_utf8, is_ascii_chars, is_char_boundary, length_of_first_scalar,
    pop_first_scalar, valid_first_scalar, valid_utf8,
};
use crate::event::{KeyCode, KeyEvent};

verus! {

/// The text and the caret of an input field. The caret is a position in the
/// UTF-8 encoding of the text: the number of bytes that stand before it.
pub struct InputState {
    pub text: Seq<char>,
    pub caret: nat,
}

impl InputState {
    /// The bytes of the text.
    pub open spec fn bytes(self) -> Seq<u8> {
        encode_utf8(self.text)
    }

    /// Whether `key` can be taken in this state. A character needs the caret
    /// to stand on a character boundary of the text, and a backspace that has
    /// something to delete needs a character to start one byte before the
    /// caret.
    pub open spec fn accepts(self, key: KeyEvent) -> bool {
        match key.code {
            KeyCode::Char(_) => is_char_boundary(self.bytes(), self.caret as int),
            KeyCode::Backspace => self.caret > 0 ==> self.caret - 1 < self.bytes().len()
                && is_char_boundary(self.bytes(), self.caret - 1),
            _ => true,
        }
    }

    /// The text with `c` put in at the caret.
    pub open spec fn text_with(self, c: char) -> Seq<char> {
        decode_utf8(
            self.bytes().subrange(0, self.caret as int) + encode_utf8(seq![c])
                + self.bytes().subrange(self.caret as int, self.bytes().len() as int),
        )
    }

    /// The text without the character that starts one byte before the caret.
    pub open spec fn text_without(self) -> Seq<char> {
        decode_utf8(
            self.bytes().subrange(0, self.caret - 1) + pop_first_scalar(
                self.bytes().subrange(self.caret - 1, self.bytes().len() as int),
            ),
        )
    }

    /// The state after `key`.
    ///
    /// Backspace deletes the character that starts one byte before the caret
    /// and steps the caret back by one; a character is put in at the caret,
    /// which steps forward by one; the left and right arrows move the caret
    /// by one where there is room; any other key changes nothing.
    pub open spec fn after(self, key: KeyEvent) -> InputState {
        match key.code {
            KeyCode::Backspace => if self.caret > 0 {
                InputState { text: self.text_without(), caret: (self.caret - 1) as nat }
            } else {
                self
            },
            KeyCode::Char(c) => InputState { text: self.text_with(c), caret: self.caret + 1 },
            KeyCode::Left => if self.caret > 0 {
                InputState { text: self.text, caret: (self.caret - 1) as nat }
            } else {
                self
            },
            KeyCode::Right => if self.caret < self.bytes().len() {
                InputState { text: self.text, caret: self.caret + 1 }
            } else {
                self
            },
            _ => self,
        }
    }
}

/// A helper for an input field. It keeps the text and the caret, and leaves
/// all rendering to the application.
pub struct Input {
    buffer: String,
    pos: usize,
}

impl View for Input {
    type V = InputState;

    closed spec fn view(&self) -> InputState {
        InputState { text: self.buffer@, caret: self.pos as nat }
    }
}

impl Input {
    /// An input with no text and the caret at the start.
    pub fn new() -> (input: Self)
        ensures
            input@.text == Seq::<char>::empty(),
            input@.caret == 0,
    {
        Self { buffer: String::new(), pos: 0 }
    }

    /// Takes a key press and updates the text and the caret.
    pub fn on_key_event(&mut self, key_event: KeyEvent)
        requires
            old(self)@.accepts(key_event),
        ensures
            final(self)@ == old(self)@.after(key_event),
    {
        broadcast use vstd::utf8::group_utf8_lib;

        match key_event.code {
            KeyCode::Backspace => {
                if self.pos > 0 {
                    self.buffer.remove(self.pos - 1);
                    self.pos -= 1;
                }
            },
            KeyCode::Char(c) => {
                self.buffer.insert(self.pos, c);
                let len = self.buffer.len();
                assert(encode_utf8(seq![c]).len() >= 1);
                assert(self.pos < len);
                self.pos += 1;
            },
            KeyCode::Left => {
                if self.pos > 0 {
                    self.pos -= 1;
                }
            },
            KeyCode::Right => {
                if self.pos < self.buffer.len() {
                    self.pos += 1;
                }
            },
            _ => (),
        }
    }

    /// Empties the text and puts the caret at the start.
    pub fn clear(&mut self)
        ensures
            final(self)@.text == Seq::<char>::empty(),
            final(self)@.caret == 0,
    {
        self.buffer.clear();
        self.pos = 0;
    }

    /// The text, as a string of its own.
    pub fn buffer(&self) -> (text: String)
        ensures
            text@ == self@.text,
    {
        self.buffer.clone()
    }

    /// Replaces the text by `buffer` and puts the caret at its end.
    pub fn set_buffer(&mut self, buffer: String)
        ensures
            final(self)@.text == buffer@,
            final(self)@.caret == encode_utf8(buffer@).len(),
    {
        self.pos = buffer.len();
        self.buffer = buffer;
    }

    /// The caret: the number of bytes of the text before it.
    pub fn pos(&self) -> (pos: usize)
        ensures
            pos == self@.caret,
    {
        self.pos
    }

    /// Puts the caret at `pos`.
    pub fn set_pos(&mut self, pos: usize)
        ensures
            final(self)@.text == old(self)@.text,
            final(self)@.caret == pos,
    {
        self.pos = pos;
    }
}

/// Where two valid encodings are joined, the joint is a character boundary.
pub proof fn lemma_joint_is_boundary(a: Seq<u8>, b: Seq<u8>)
    requires
        valid_utf8(a),
        valid_utf8(b),
    ensures
        valid_utf8(a + b),
        is_char_boundary(a + b, a.len() as int),
    decreases a.len(),
{
    vstd::utf8::valid_utf8_concat(a, b);
    if a.len() > 0 {
        let rest = pop_first_scalar(a);
        assert(valid_first_scalar(a));
        assert(pop_first_scalar(a + b) =~= rest + b);
        assert(length_of_first_scalar(a + b) == length_of_first_scalar(a));
        lemma_joint_is_boundary(rest, b);
    }
}

/// The encoding of two texts joined is the encoding of the first followed by
/// the encoding of the second.
pub proof fn lemma_encode_joined(a: Seq<char>, b: Seq<char>)
    ensures
        encode_utf8(a + b) == encode_utf8(a) + encode_utf8(b),
    decreases a.len(),
{
    if a.len() == 0 {
        assert(a + b =~= b);
        assert(encode_utf8(a) + encode_utf8(b) =~= encode_utf8(b));
    } else {
        assert((a + b).drop_first() =~= a.drop_first() + b);
        lemma_encode_joined(a.drop_first(), b);
        assert(encode_utf8(a + b) =~= encode_utf8(a) + encode_utf8(b));
    }
}

/// The byte position at which the character with index `k` starts in the
/// encoding of `text`; for `k` the length of the text, the end.
pub open spec fn offset_of(text: Seq<char>, k: int) -> int {
    encode_utf8(text.take(k)).len() as int
}

/// The encoding of a text falls into the bytes before the start of a
/// character and the bytes from there on, and that start is a character
/// boundary.
pub proof fn lemma_offset_splits(text: Seq<char>, k: int)
    requires
        0 <= k <= text.len(),
    ensures
        0 <= offset_of(text, k) <= encode_utf8(text).len(),
        is_char_boundary(encode_utf8(text), offset_of(text, k)),
        encode_utf8(text).subrange(0, offset_of(text, k)) == encode_utf8(text.take(k)),
        encode_utf8(text).subrange(offset_of(text, k), encode_utf8(text).len() as int)
            == encode_utf8(text.skip(k)),
{
    broadcast use vstd::utf8::encode_utf8_valid_utf8;

    let before = encode_utf8(text.take(k));
    let after = encode_utf8(text.skip(k));
    assert(text =~= text.take(k) + text.skip(k));
    lemma_encode_joined(text.take(k), text.skip(k));
    lemma_joint_is_boundary(before, after);
    assert((before + after).subrange(0, before.len() as int) =~= before);
    assert((before + after).subrange(before.len() as int, (before + after).len() as int) =~= after);
}

/// With the caret at the start of the character with index `k`, or at the
/// end of the text, a character can be typed, and it becomes the character
/// with index `k`.
pub proof fn lemma_character_goes_in(state: InputState, k: int, key: KeyEvent, c: char)
    requires
        0 <= k <= state.text.len(),
        state.caret == offset_of(state.text, k),
        key.code == KeyCode::Char(c),
    ensures
        state.accepts(key),
        state.after(key).text == state.text.insert(k, c),
        state.after(key).caret == state.caret + 1,
{
    broadcast use vstd::utf8::encode_utf8_decode_utf8;

    let before = state.text.take(k);
    let after = state.text.skip(k);
    lemma_offset_splits(state.text, k);
    lemma_encode_joined(before, seq![c]);
    lemma_encode_joined(before + seq![c], after);
    assert(before + seq![c] + after =~= state.text.insert(k, c));
}

/// With the caret one byte after the start of the character with index `k`,
/// backspace can be pressed, and it takes that character out.
pub proof fn lemma_character_goes_out(state: InputState, k: int, key: KeyEvent)
    requires
        0 <= k < state.text.len(),
        state.caret == offset_of(state.text, k) + 1,
        key.code == KeyCode::Backspace,
    ensures
        state.accepts(key),
        state.after(key).text == state.text.remove(k),
        state.after(key).caret == state.caret - 1,
{
    broadcast use vstd::utf8::encode_utf8_decode_utf8;

    let before = state.text.take(k);
    let after = state.text.skip(k);
    lemma_offset_splits(state.text, k);
    vstd::utf8::encode_utf8_first_scalar(after);
    assert(pop_first_scalar(encode_utf8(after)) =~= encode_utf8(after.drop_first()));
    assert(encode_utf8(after).len() >= 1);
    lemma_encode_joined(before, after.drop_first());
    assert(before + after.drop_first() =~= state.text.remove(k));
}

/// In a text of ASCII characters every character takes one byte, so the
/// character with index `k` starts at byte `k`.
pub proof fn lemma_ascii_offset(text: Seq<char>, k: int)
    requires
        is_ascii_chars(text),
        0 <= k <= text.len(),
    ensures
        offset_of(text, k) == k,
        encode_utf8(text).len() == text.len(),
{
    vstd::utf8::is_ascii_chars_encode_utf8(text);
    assert(is_ascii_chars(text.take(k)));
    vstd::utf8::is_ascii_chars_encode_utf8(text.take(k));
}

} // verus!
