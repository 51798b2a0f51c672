//! A small byte-stream key parser.
//!
//! Maps a stream of raw terminal bytes to normalized keys, one byte at a
//! time: printable ASCII becomes a plain character, carriage return and line
//! feed become `Char('\n')`, tab becomes `Char('\t')`, the classic control
//! bytes 1 through 26 become `Ctrl` of the matching letter, and escape,
//! delete and NUL get their own keys. A byte with no defined mapping (other
//! control bytes, bytes beyond ASCII) yields no key and is skipped.

use vstd::prelude::*;

use crate::key::Key;

verus! {

/// The key one raw byte stands for, if any.
pub open spec fn spec_key_of_byte(byte: u8) -> Option<Key> {
    if byte == 0x00 {
        Some(Key::Null)
    } else if byte == 0x09 {
        Some(Key::Char('\t'))
    } else if byte == 0x0A || byte == 0x0D {
        Some(Key::Char('\n'))
    } else if byte == 0x1B {
        Some(Key::Esc)
    } else if byte == 0x7F {
        Some(Key::Backspace)
    } else if 0x01 <= byte && byte <= 0x1A {
        Some(Key::Ctrl(((byte - 0x01 + 0x61) as u8) as char))
    } else if 0x20 <= byte && byte <= 0x7E {
        Some(Key::Char(byte as char))
    } else {
        None
    }
}

/// The keys a byte sequence parses to, in order, unmapped bytes skipped.
pub open spec fn spec_parse_keys(bytes: Seq<u8>) -> Seq<Key>
    decreases bytes.len(),
{
    if bytes.len() == 0 {
        Seq::empty()
    } else {
        spec_parse_keys(bytes.drop_last()) + (match spec_key_of_byte(bytes.last()) {
            Option::Some(key) => seq![key],
            Option::None => Seq::empty(),
        })
    }
}

/// The key one raw byte stands for, if any.
pub fn key_of_byte(byte: u8) -> (key: Option<Key>)
    ensures
        key == spec_key_of_byte(byte),
{
    if byte == 0x00 {
        Some(Key::Null)
    } else if byte == 0x09 {
        Some(Key::Char('\t'))
    } else if byte == 0x0A || byte == 0x0D {
        Some(Key::Char('\n'))
    } else if byte == 0x1B {
        Some(Key::Esc)
    } else if byte == 0x7F {
        Some(Key::Backspace)
    } else if 0x01 <= byte && byte <= 0x1A {
        Some(Key::Ctrl((byte - 0x01 + 0x61) as char))
    } else if 0x20 <= byte && byte <= 0x7E {
        Some(Key::Char(byte as char))
    } else {
        None
    }
}

/// Parses raw input bytes into normalized keys, in order.
pub fn parse_keys(input_bytes: &[u8]) -> (keys: Vec<Key>)
    ensures
        keys@ == spec_parse_keys(input_bytes@),
{
    let mut keys: Vec<Key> = Vec::new();
    let mut i: usize = 0;
    proof {
        assert(keys@ =~= spec_parse_keys(input_bytes@.take(0)));
    }
    while i < input_bytes.len()
        invariant
            i <= input_bytes@.len(),
            keys@ == spec_parse_keys(input_bytes@.take(i as int)),
        decreases input_bytes@.len() - i,
    {
        match key_of_byte(input_bytes[i]) {
            Some(key) => {
                keys.push(key);
            },
            None => {},
        }
        proof {
            let taken = input_bytes@.take(i as int);
            let taken_next = input_bytes@.take(i + 1 as int);
            assert(taken_next.drop_last() =~= taken);
            assert(taken_next.last() == input_bytes@[i as int]);
            assert(keys@ =~= spec_parse_keys(taken_next));
        }
        i = i + 1;
    }
    proof {
        assert(input_bytes@.take(input_bytes@.len() as int) =~= input_bytes@);
    }
    keys
}

} // verus!
