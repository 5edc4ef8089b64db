//! What the library takes for granted of `String`'s own operations, stated
//! over the string's characters and, where an operation takes a byte
//! position, over the bytes of its UTF-8 encoding.

use vstd::prelude::*;
use vstd::utf8::{decode_first_scalar, encode_utf8, is_char_boundary, pop_first_scalar};

verus! {

/// `String::len` returns the length of the string in bytes.
pub assume_specification[ String::len ](s: &String) -> (len: usize)
    ensures
        len == encode_utf8(s@).len(),
;

/// `String::push` appends one character to the end of the string.
pub assume_specification[ String::push ](s: &mut String, ch: char)
    ensures
        final(s)@ == old(s)@.push(ch),
;

/// `String::pop` removes the last character of the string and returns it, or
/// returns `None` and leaves the string as it is where the string is empty.
pub assume_specification[ String::pop ](s: &mut String) -> (last: Option<char>)
    ensures
        old(s)@.len() == 0 ==> last is None && final(s)@ == old(s)@,
        old(s)@.len() > 0 ==> last == Some(old(s)@.last()) && final(s)@ == old(s)@.drop_last(),
;

/// `String::clear` removes all the characters of the string.
pub assume_specification[ String::clear ](s: &mut String)
    ensures
        final(s)@ == Seq::<char>::empty(),
;

/// `String::insert` puts the encoding of one character into the string at a
/// byte position, between the bytes before that position and the bytes from
/// it on. It panics where the position is beyond the string's length or is
/// no character boundary.
pub assume_specification[ String::insert ](s: &mut String, idx: usize, ch: char)
    requires
        is_char_boundary(encode_utf8(old(s)@), idx as int),
    ensures
        encode_utf8(final(s)@) == encode_utf8(old(s)@).subrange(0, idx as int) + encode_utf8(
            seq![ch],
        ) + encode_utf8(old(s)@).subrange(idx as int, encode_utf8(old(s)@).len() as int),
;

/// `String::remove` takes the character that starts at a byte position out of
/// the string and returns it; the bytes before it and the bytes after it
/// stay. It panics where the position is at or beyond the string's length or
/// is no character boundary.
pub assume_specification[ String::remove ](s: &mut String, idx: usize) -> (ch: char)
    requires
        idx < encode_utf8(old(s)@).len(),
        is_char_boundary(encode_utf8(old(s)@), idx as int),
    ensures
        ch as u32 == decode_first_scalar(
            encode_utf8(old(s)@).subrange(idx as int, encode_utf8(old(s)@).len() as int),
        ),
        encode_utf8(final(s)@) == encode_utf8(old(s)@).subrange(0, idx as int) + pop_first_scalar(
            encode_utf8(old(s)@).subrange(idx as int, encode_utf8(old(s)@).len() as int),
        ),
;

} // verus!
