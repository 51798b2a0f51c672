//! The raw, escape-sequence-derived event protocol handed over by the
//! terminal driver, as plain values.
//!
//! The driver itself (and its blocking read) lives outside this library;
//! these types hold exactly what the decoders read of a raw event.

use vstd::prelude::*;

verus! {

/// A raw key code as reported by the terminal driver.
#[derive(Clone, Copy, Debug, PartialEq, Eq, Structural)]
pub enum RawKeyCode {
    Backspace,
    Enter,
    Left,
    Right,
    Up,
    Down,
    Home,
    End,
    PageUp,
    PageDown,
    Tab,
    BackTab,
    Delete,
    Insert,
    F(u8),
    Char(char),
    Null,
    Esc,
}

/// No modifier bit set on a raw key event.
pub const RAW_MOD_NONE: u8 = 0;

/// The shift modifier bit of a raw key event.
pub const RAW_MOD_SHIFT: u8 = 1;

/// The control modifier bit of a raw key event.
pub const RAW_MOD_CONTROL: u8 = 2;

/// The alt modifier bit of a raw key event.
pub const RAW_MOD_ALT: u8 = 4;

/// A raw keyboard event: a key code plus a modifier bit mask.
#[derive(Clone, Copy, Debug, PartialEq, Eq, Structural)]
pub struct RawKeyEvent {
    pub code: RawKeyCode,
    pub modifiers: u8,
}

/// A mouse button as reported by the terminal driver.
#[derive(Clone, Copy, Debug, PartialEq, Eq, Structural)]
pub enum RawMouseButton {
    Left,
    Right,
    Middle,
}

/// The kind of a raw mouse event.
#[derive(Clone, Copy, Debug, PartialEq, Eq, Structural)]
pub enum RawMouseKind {
    Down(RawMouseButton),
    Up(RawMouseButton),
    Drag(RawMouseButton),
    Moved,
    ScrollDown,
    ScrollUp,
}

/// A raw mouse event: a kind plus one-based column and row coordinates.
#[derive(Clone, Copy, Debug, PartialEq, Eq, Structural)]
pub struct RawMouseEvent {
    pub kind: RawMouseKind,
    pub column: u16,
    pub row: u16,
}

/// One raw event pulled from the terminal driver.
///
/// `PasteStart` and `PasteEnd` stand for the bracketed-paste start and end
/// markers that the driver detects in the byte stream.
#[derive(Clone, Copy, Debug, PartialEq, Eq, Structural)]
pub enum RawEvent {
    Key(RawKeyEvent),
    Mouse(RawMouseEvent),
    Resize(u16, u16),
    PasteStart,
    PasteEnd,
}

/// The raw event source cannot supply further events; this is fatal for the
/// input loop.
#[derive(Clone, Copy, Debug, PartialEq, Eq, Structural)]
pub enum ReadError {
    InputLost,
}

} // verus!
