//! Normalized mouse input and the mouse decoder.

use vstd::prelude::*;

use crate::raw::{RawMouseButton, RawMouseEvent, RawMouseKind};

verus! {

/// A zero-based (line, column) screen position, derived from a one-based raw
/// coordinate via saturating subtraction: never negative.
#[derive(Clone, Copy, Debug, Hash, PartialEq, Eq, Structural)]
pub struct Position {
    pub line: u16,
    pub column: u16,
}

impl Position {
    /// Makes a position from already zero-based coordinates.
    pub fn new(line: u16, column: u16) -> (pos: Position)
        ensures
            pos == (Position { line, column }),
    {
        Position { line, column }
    }
}

/// The zero-based coordinate a one-based raw coordinate normalizes to.
pub open spec fn spec_normalize_coordinate(raw: u16) -> u16 {
    if raw == 0 {
        0
    } else {
        (raw - 1) as u16
    }
}

/// The position a raw mouse event points at, both coordinates normalized.
pub open spec fn spec_position_of(event: RawMouseEvent) -> Position {
    Position {
        line: spec_normalize_coordinate(event.row),
        column: spec_normalize_coordinate(event.column),
    }
}

/// A mouse button.
#[derive(Clone, Copy, Debug, Hash, PartialEq, Eq, Structural)]
pub enum MouseButton {
    /// The left mouse button.
    Left,
    /// The right mouse button.
    Right,
    /// The middle mouse button.
    Middle,
    /// Mouse wheel going up; only ever reported on a press.
    WheelUp,
    /// Mouse wheel going down; only ever reported on a press.
    WheelDown,
}

/// A mouse related event. All coordinates are zero-based.
#[derive(Clone, Copy, Debug, PartialEq, Eq, Structural)]
pub enum MouseEvent {
    /// A mouse button was pressed.
    Press(MouseButton, Position),
    /// A mouse button was released. The source protocol does not reliably
    /// report which one, so the button identity is discarded.
    Release(Position),
    /// A mouse button is held over the given coordinates.
    Hold(Position),
}

/// The normalized button a raw button maps to.
pub open spec fn spec_button_of(button: RawMouseButton) -> MouseButton {
    match button {
        RawMouseButton::Left => MouseButton::Left,
        RawMouseButton::Right => MouseButton::Right,
        RawMouseButton::Middle => MouseButton::Middle,
    }
}

/// What a raw mouse event decodes to: presses keep their button, releases and
/// drags drop it, wheel movement becomes a wheel-button press, and a pointer
/// move without a button has no mapping at all.
pub open spec fn spec_decode_mouse(event: RawMouseEvent) -> Option<MouseEvent> {
    let position = spec_position_of(event);
    match event.kind {
        RawMouseKind::Down(button) => Some(MouseEvent::Press(spec_button_of(button), position)),
        RawMouseKind::Up(_) => Some(MouseEvent::Release(position)),
        RawMouseKind::Drag(_) => Some(MouseEvent::Hold(position)),
        RawMouseKind::Moved => None,
        RawMouseKind::ScrollDown => Some(MouseEvent::Press(MouseButton::WheelDown, position)),
        RawMouseKind::ScrollUp => Some(MouseEvent::Press(MouseButton::WheelUp, position)),
    }
}

fn normalize_coordinate(raw: u16) -> (zero_based: u16)
    ensures
        zero_based == spec_normalize_coordinate(raw),
{
    if raw == 0 {
        0
    } else {
        raw - 1
    }
}

impl MouseButton {
    /// Maps a raw mouse button to the normalized one.
    pub fn from_raw(button: RawMouseButton) -> (normalized: MouseButton)
        ensures
            normalized == spec_button_of(button),
    {
        match button {
            RawMouseButton::Left => MouseButton::Left,
            RawMouseButton::Right => MouseButton::Right,
            RawMouseButton::Middle => MouseButton::Middle,
        }
    }
}

impl MouseEvent {
    /// Decodes a raw mouse event. `None` is the defined result for a pointer
    /// move without a button: ignored, no failure.
    pub fn from_raw(event: RawMouseEvent) -> (decoded: Option<MouseEvent>)
        ensures
            decoded == spec_decode_mouse(event),
    {
        let position = Position::new(
            normalize_coordinate(event.row),
            normalize_coordinate(event.column),
        );
        match event.kind {
            RawMouseKind::Down(button) => Some(
                MouseEvent::Press(MouseButton::from_raw(button), position),
            ),
            RawMouseKind::Up(_) => Some(MouseEvent::Release(position)),
            RawMouseKind::Drag(_) => Some(MouseEvent::Hold(position)),
            RawMouseKind::Moved => None,
            RawMouseKind::ScrollDown => Some(MouseEvent::Press(MouseButton::WheelDown, position)),
            RawMouseKind::ScrollUp => Some(MouseEvent::Press(MouseButton::WheelUp, position)),
        }
    }
}

} // verus!
