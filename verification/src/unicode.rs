//! UTF-8 encoding of single characters, for the paste buffer.

use vstd::prelude::*;

use crate::key::Key;

verus! {

/// The UTF-8 encoding of one character.
pub open spec fn utf8_of(c: char) -> Seq<u8> {
    let u = c as u32;
    if u < 0x80 {
        seq![u as u8]
    } else if u < 0x800 {
        seq![(0xC0 + u / 0x40) as u8, (0x80 + u % 0x40) as u8]
    } else if u < 0x10000 {
        seq![
            (0xE0 + u / 0x1000) as u8,
            (0x80 + (u / 0x40) % 0x40) as u8,
            (0x80 + u % 0x40) as u8,
        ]
    } else {
        seq![
            (0xF0 + u / 0x40000) as u8,
            (0x80 + (u / 0x1000) % 0x40) as u8,
            (0x80 + (u / 0x40) % 0x40) as u8,
            (0x80 + u % 0x40) as u8,
        ]
    }
}

/// The bytes a key contributes to the paste buffer: the UTF-8 encoding for a
/// plain character, nothing for every other key.
pub open spec fn paste_bytes_of(key: Key) -> Seq<u8> {
    match key {
        Key::Char(c) => utf8_of(c),
        _ => Seq::empty(),
    }
}

/// Appends the UTF-8 encoding of one character to a byte buffer.
pub fn push_utf8(buffer: &mut Vec<u8>, c: char)
    ensures
        final(buffer)@ == old(buffer)@ + utf8_of(c),
{
    let u = c as u32;
    if u < 0x80 {
        buffer.push(u as u8);
        proof {
            assert(buffer@ =~= old(buffer)@ + utf8_of(c));
        }
    } else if u < 0x800 {
        buffer.push((0xC0 + u / 0x40) as u8);
        buffer.push((0x80 + u % 0x40) as u8);
        proof {
            assert(buffer@ =~= old(buffer)@ + utf8_of(c));
        }
    } else if u < 0x10000 {
        buffer.push((0xE0 + u / 0x1000) as u8);
        buffer.push((0x80 + (u / 0x40) % 0x40) as u8);
        buffer.push((0x80 + u % 0x40) as u8);
        proof {
            assert(buffer@ =~= old(buffer)@ + utf8_of(c));
        }
    } else {
        buffer.push((0xF0 + u / 0x40000) as u8);
        buffer.push((0x80 + (u / 0x1000) % 0x40) as u8);
        buffer.push((0x80 + (u / 0x40) % 0x40) as u8);
        buffer.push((0x80 + u % 0x40) as u8);
        proof {
            assert(buffer@ =~= old(buffer)@ + utf8_of(c));
        }
    }
}

} // verus!
