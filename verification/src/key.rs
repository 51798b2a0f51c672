//! Normalized keyboard input and the key decoder.
//!
//! A raw key code plus modifier mask is decoded into a [`Key`]. Plain and
//! shift-modified keys pass the base key through unchanged (case is assumed
//! already resolved by the raw event); control and alt combine only with
//! `Char`, fusing the modifier into the variant. Any other combination is
//! unsupported and decodes to no key at all, never to an abort.

use vstd::prelude::*;

use crate::raw::{RawEvent, RawKeyCode, RawKeyEvent};
use crate::raw::{RAW_MOD_ALT, RAW_MOD_CONTROL, RAW_MOD_NONE, RAW_MOD_SHIFT};

verus! {

/// The current interpretation context for keyboard input. Mutated only as a
/// side effect of dispatching a switch-mode action.
#[derive(Clone, Copy, Debug, PartialEq, Eq, Structural)]
pub enum InputMode {
    Normal,
    Locked,
    Resize,
    Pane,
    Tab,
    Scroll,
    RenameTab,
    Session,
}

/// Normalized keyboard input. A modifier is fused into the variant
/// (`Ctrl(c)`, `Alt(c)`) rather than carried as a separate flag; only `Char`
/// keys support such composition.
#[derive(Clone, Copy, Debug, PartialEq, Eq, Structural)]
pub enum Key {
    Backspace,
    Left,
    Right,
    Up,
    Down,
    Home,
    End,
    PageUp,
    PageDown,
    BackTab,
    Delete,
    Insert,
    F(u8),
    Char(char),
    Alt(char),
    Ctrl(char),
    Null,
    Esc,
}

/// The base key a raw key code stands for. Enter and Tab decode to
/// `Char('\n')` and `Char('\t')`: a lossy, intentional simplification.
pub open spec fn spec_key_of_code(code: RawKeyCode) -> Key {
    match code {
        RawKeyCode::Backspace => Key::Backspace,
        RawKeyCode::Enter => Key::Char('\n'),
        RawKeyCode::Left => Key::Left,
        RawKeyCode::Right => Key::Right,
        RawKeyCode::Up => Key::Up,
        RawKeyCode::Down => Key::Down,
        RawKeyCode::Home => Key::Home,
        RawKeyCode::End => Key::End,
        RawKeyCode::PageUp => Key::PageUp,
        RawKeyCode::PageDown => Key::PageDown,
        RawKeyCode::Tab => Key::Char('\t'),
        RawKeyCode::BackTab => Key::BackTab,
        RawKeyCode::Delete => Key::Delete,
        RawKeyCode::Insert => Key::Insert,
        RawKeyCode::F(n) => Key::F(n),
        RawKeyCode::Char(c) => Key::Char(c),
        RawKeyCode::Null => Key::Null,
        RawKeyCode::Esc => Key::Esc,
    }
}

/// What a raw key event decodes to: the base key for no or shift modifier,
/// the fused variant for control or alt on a `Char`, and nothing for every
/// unsupported combination.
pub open spec fn spec_cast_key(event: RawKeyEvent) -> Option<Key> {
    let base = spec_key_of_code(event.code);
    if event.modifiers == RAW_MOD_NONE || event.modifiers == RAW_MOD_SHIFT {
        Some(base)
    } else if event.modifiers == RAW_MOD_CONTROL {
        match base {
            Key::Char(c) => Some(Key::Ctrl(c)),
            _ => None,
        }
    } else if event.modifiers == RAW_MOD_ALT {
        match base {
            Key::Char(c) => Some(Key::Alt(c)),
            _ => None,
        }
    } else {
        None
    }
}

/// Maps a raw key code to its base [`Key`].
pub fn cast_crossterm_key_code(code: RawKeyCode) -> (key: Key)
    ensures
        key == spec_key_of_code(code),
{
    match code {
        RawKeyCode::Backspace => Key::Backspace,
        RawKeyCode::Enter => Key::Char('\n'),
        RawKeyCode::Left => Key::Left,
        RawKeyCode::Right => Key::Right,
        RawKeyCode::Up => Key::Up,
        RawKeyCode::Down => Key::Down,
        RawKeyCode::Home => Key::Home,
        RawKeyCode::End => Key::End,
        RawKeyCode::PageUp => Key::PageUp,
        RawKeyCode::PageDown => Key::PageDown,
        RawKeyCode::Tab => Key::Char('\t'),
        RawKeyCode::BackTab => Key::BackTab,
        RawKeyCode::Delete => Key::Delete,
        RawKeyCode::Insert => Key::Insert,
        RawKeyCode::F(n) => Key::F(n),
        RawKeyCode::Char(c) => Key::Char(c),
        RawKeyCode::Null => Key::Null,
        RawKeyCode::Esc => Key::Esc,
    }
}

/// Decodes a raw key event. `None` is the defined result for an unsupported
/// modifier combination; the caller drops the event and the loop goes on.
pub fn cast_crossterm_key(event: RawKeyEvent) -> (key: Option<Key>)
    ensures
        key == spec_cast_key(event),
{
    let base = cast_crossterm_key_code(event.code);
    if event.modifiers == RAW_MOD_NONE || event.modifiers == RAW_MOD_SHIFT {
        Some(base)
    } else if event.modifiers == RAW_MOD_CONTROL {
        match base {
            Key::Char(c) => Some(Key::Ctrl(c)),
            _ => None,
        }
    } else if event.modifiers == RAW_MOD_ALT {
        match base {
            Key::Char(c) => Some(Key::Alt(c)),
            _ => None,
        }
    } else {
        None
    }
}

/// What a whole raw event decodes to as a key: only key events produce one.
pub open spec fn spec_cast_event(event: RawEvent) -> Option<Key> {
    match event {
        RawEvent::Key(key_event) => spec_cast_key(key_event),
        _ => None,
    }
}

/// Decodes a raw event as keyboard input; non-key events produce no key.
pub fn cast_crossterm_event(event: RawEvent) -> (key: Option<Key>)
    ensures
        key == spec_cast_event(event),
{
    match event {
        RawEvent::Key(key_event) => cast_crossterm_key(key_event),
        _ => None,
    }
}

/// The raw key event a normalized key encodes back to.
pub open spec fn spec_key_to_raw(key: Key) -> RawKeyEvent {
    match key {
        Key::Backspace => RawKeyEvent { code: RawKeyCode::Backspace, modifiers: RAW_MOD_NONE },
        Key::Left => RawKeyEvent { code: RawKeyCode::Left, modifiers: RAW_MOD_NONE },
        Key::Right => RawKeyEvent { code: RawKeyCode::Right, modifiers: RAW_MOD_NONE },
        Key::Up => RawKeyEvent { code: RawKeyCode::Up, modifiers: RAW_MOD_NONE },
        Key::Down => RawKeyEvent { code: RawKeyCode::Down, modifiers: RAW_MOD_NONE },
        Key::Home => RawKeyEvent { code: RawKeyCode::Home, modifiers: RAW_MOD_NONE },
        Key::End => RawKeyEvent { code: RawKeyCode::End, modifiers: RAW_MOD_NONE },
        Key::PageUp => RawKeyEvent { code: RawKeyCode::PageUp, modifiers: RAW_MOD_NONE },
        Key::PageDown => RawKeyEvent { code: RawKeyCode::PageDown, modifiers: RAW_MOD_NONE },
        Key::BackTab => RawKeyEvent { code: RawKeyCode::BackTab, modifiers: RAW_MOD_NONE },
        Key::Delete => RawKeyEvent { code: RawKeyCode::Delete, modifiers: RAW_MOD_NONE },
        Key::Insert => RawKeyEvent { code: RawKeyCode::Insert, modifiers: RAW_MOD_NONE },
        Key::F(n) => RawKeyEvent { code: RawKeyCode::F(n), modifiers: RAW_MOD_NONE },
        Key::Char(c) => (if c == '\n' {
            RawKeyEvent { code: RawKeyCode::Enter, modifiers: RAW_MOD_NONE }
        } else if c == '\t' {
            RawKeyEvent { code: RawKeyCode::Tab, modifiers: RAW_MOD_NONE }
        } else {
            RawKeyEvent { code: RawKeyCode::Char(c), modifiers: RAW_MOD_NONE }
        }),
        Key::Ctrl(c) => RawKeyEvent { code: RawKeyCode::Char(c), modifiers: RAW_MOD_CONTROL },
        Key::Alt(c) => RawKeyEvent { code: RawKeyCode::Char(c), modifiers: RAW_MOD_ALT },
        Key::Null => RawKeyEvent { code: RawKeyCode::Null, modifiers: RAW_MOD_NONE },
        Key::Esc => RawKeyEvent { code: RawKeyCode::Esc, modifiers: RAW_MOD_NONE },
    }
}

/// Encodes a normalized key back into a raw key event.
pub fn cast_key_to_crossterm(event: Key) -> (raw: RawKeyEvent)
    ensures
        raw == spec_key_to_raw(event),
{
    match event {
        Key::Backspace => RawKeyEvent { code: RawKeyCode::Backspace, modifiers: RAW_MOD_NONE },
        Key::Left => RawKeyEvent { code: RawKeyCode::Left, modifiers: RAW_MOD_NONE },
        Key::Right => RawKeyEvent { code: RawKeyCode::Right, modifiers: RAW_MOD_NONE },
        Key::Up => RawKeyEvent { code: RawKeyCode::Up, modifiers: RAW_MOD_NONE },
        Key::Down => RawKeyEvent { code: RawKeyCode::Down, modifiers: RAW_MOD_NONE },
        Key::Home => RawKeyEvent { code: RawKeyCode::Home, modifiers: RAW_MOD_NONE },
        Key::End => RawKeyEvent { code: RawKeyCode::End, modifiers: RAW_MOD_NONE },
        Key::PageUp => RawKeyEvent { code: RawKeyCode::PageUp, modifiers: RAW_MOD_NONE },
        Key::PageDown => RawKeyEvent { code: RawKeyCode::PageDown, modifiers: RAW_MOD_NONE },
        Key::BackTab => RawKeyEvent { code: RawKeyCode::BackTab, modifiers: RAW_MOD_NONE },
        Key::Delete => RawKeyEvent { code: RawKeyCode::Delete, modifiers: RAW_MOD_NONE },
        Key::Insert => RawKeyEvent { code: RawKeyCode::Insert, modifiers: RAW_MOD_NONE },
        Key::F(n) => RawKeyEvent { code: RawKeyCode::F(n), modifiers: RAW_MOD_NONE },
        Key::Char(c) => (if c == '\n' {
            RawKeyEvent { code: RawKeyCode::Enter, modifiers: RAW_MOD_NONE }
        } else if c == '\t' {
            RawKeyEvent { code: RawKeyCode::Tab, modifiers: RAW_MOD_NONE }
        } else {
            RawKeyEvent { code: RawKeyCode::Char(c), modifiers: RAW_MOD_NONE }
        }),
        Key::Ctrl(c) => RawKeyEvent { code: RawKeyCode::Char(c), modifiers: RAW_MOD_CONTROL },
        Key::Alt(c) => RawKeyEvent { code: RawKeyCode::Char(c), modifiers: RAW_MOD_ALT },
        Key::Null => RawKeyEvent { code: RawKeyCode::Null, modifiers: RAW_MOD_NONE },
        Key::Esc => RawKeyEvent { code: RawKeyCode::Esc, modifiers: RAW_MOD_NONE },
    }
}

/// Law: control or alt combined with a `Char` key yields the fused variant;
/// combined with any other key it yields no key at all.
pub proof fn lemma_modifier_composition(event: RawKeyEvent)
    ensures
        event.modifiers == RAW_MOD_CONTROL ==> spec_cast_key(event) == (
        match spec_key_of_code(event.code) {
            Key::Char(c) => Some(Key::Ctrl(c)),
            _ => None::<Key>,
        }),
        event.modifiers == RAW_MOD_ALT ==> spec_cast_key(event) == (
        match spec_key_of_code(event.code) {
            Key::Char(c) => Some(Key::Alt(c)),
            _ => None::<Key>,
        }),
        event.modifiers == RAW_MOD_NONE || event.modifiers == RAW_MOD_SHIFT
            ==> spec_cast_key(event) == Some(spec_key_of_code(event.code)),
        event.modifiers != RAW_MOD_NONE && event.modifiers != RAW_MOD_SHIFT && event.modifiers
            != RAW_MOD_CONTROL && event.modifiers != RAW_MOD_ALT ==> spec_cast_key(event) is None,
{
}

/// Law: encoding a normalized key into a raw key event and decoding it again
/// gives the key back, for every key.
pub proof fn lemma_key_cast_round_trip(key: Key)
    ensures
        spec_cast_key(spec_key_to_raw(key)) == Some(key),
{
}

} // verus!
