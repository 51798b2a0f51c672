use zellij_input::key::{
    cast_crossterm_event, cast_crossterm_key, cast_crossterm_key_code, cast_key_to_crossterm, Key,
};
use zellij_input::mouse::{MouseButton, MouseEvent, Position};
use zellij_input::parse::parse_keys;
use zellij_input::raw::{
    RawEvent, RawKeyCode, RawKeyEvent, RawMouseButton, RawMouseEvent, RawMouseKind, RAW_MOD_ALT,
    RAW_MOD_CONTROL, RAW_MOD_NONE, RAW_MOD_SHIFT,
};

fn key_event(code: RawKeyCode, modifiers: u8) -> RawKeyEvent {
    RawKeyEvent { code, modifiers }
}

fn mouse_event(kind: RawMouseKind, column: u16, row: u16) -> RawMouseEvent {
    RawMouseEvent { kind, column, row }
}

#[test]
fn plain_keys_pass_through() {
    assert_eq!(
        cast_crossterm_key(key_event(RawKeyCode::Char('a'), RAW_MOD_NONE)),
        Some(Key::Char('a'))
    );
    assert_eq!(
        cast_crossterm_key(key_event(RawKeyCode::Left, RAW_MOD_NONE)),
        Some(Key::Left)
    );
    assert_eq!(
        cast_crossterm_key(key_event(RawKeyCode::F(5), RAW_MOD_NONE)),
        Some(Key::F(5))
    );
}

#[test]
fn shift_passes_base_key_through() {
    assert_eq!(
        cast_crossterm_key(key_event(RawKeyCode::Char('A'), RAW_MOD_SHIFT)),
        Some(Key::Char('A'))
    );
    assert_eq!(
        cast_crossterm_key(key_event(RawKeyCode::Up, RAW_MOD_SHIFT)),
        Some(Key::Up)
    );
}

#[test]
fn enter_and_tab_decode_to_chars() {
    assert_eq!(cast_crossterm_key_code(RawKeyCode::Enter), Key::Char('\n'));
    assert_eq!(cast_crossterm_key_code(RawKeyCode::Tab), Key::Char('\t'));
}

#[test]
fn ctrl_and_alt_fuse_into_char_keys() {
    assert_eq!(
        cast_crossterm_key(key_event(RawKeyCode::Char('c'), RAW_MOD_CONTROL)),
        Some(Key::Ctrl('c'))
    );
    assert_eq!(
        cast_crossterm_key(key_event(RawKeyCode::Char('x'), RAW_MOD_ALT)),
        Some(Key::Alt('x'))
    );
}

#[test]
fn ctrl_and_alt_on_non_char_keys_are_unsupported() {
    assert_eq!(
        cast_crossterm_key(key_event(RawKeyCode::Left, RAW_MOD_CONTROL)),
        None
    );
    assert_eq!(
        cast_crossterm_key(key_event(RawKeyCode::Delete, RAW_MOD_ALT)),
        None
    );
    assert_eq!(
        cast_crossterm_key(key_event(RawKeyCode::F(1), RAW_MOD_CONTROL)),
        None
    );
}

#[test]
fn combined_modifiers_are_unsupported() {
    let combined = RAW_MOD_CONTROL | RAW_MOD_ALT;
    assert_eq!(
        cast_crossterm_key(key_event(RawKeyCode::Char('a'), combined)),
        None
    );
    let shifted_control = RAW_MOD_SHIFT | RAW_MOD_CONTROL;
    assert_eq!(
        cast_crossterm_key(key_event(RawKeyCode::Char('a'), shifted_control)),
        None
    );
}

#[test]
fn only_key_events_decode_to_keys() {
    assert_eq!(
        cast_crossterm_event(RawEvent::Key(key_event(RawKeyCode::Char('q'), RAW_MOD_NONE))),
        Some(Key::Char('q'))
    );
    assert_eq!(cast_crossterm_event(RawEvent::Resize(80, 24)), None);
    assert_eq!(
        cast_crossterm_event(RawEvent::Mouse(mouse_event(RawMouseKind::Moved, 1, 1))),
        None
    );
}

#[test]
fn key_cast_round_trips() {
    let keys = vec![
        Key::Char('a'),
        Key::Char('\n'),
        Key::Char('\t'),
        Key::Ctrl('p'),
        Key::Alt('z'),
        Key::BackTab,
        Key::F(12),
        Key::Esc,
        Key::Null,
    ];
    for key in keys {
        let raw = cast_key_to_crossterm(key);
        assert_eq!(cast_crossterm_key(raw), Some(key));
    }
}

#[test]
fn one_based_coordinates_normalize_saturating() {
    let decoded = MouseEvent::from_raw(mouse_event(
        RawMouseKind::Down(RawMouseButton::Left),
        1,
        1,
    ));
    assert_eq!(
        decoded,
        Some(MouseEvent::Press(MouseButton::Left, Position { line: 0, column: 0 }))
    );
    let clamped = MouseEvent::from_raw(mouse_event(
        RawMouseKind::Down(RawMouseButton::Left),
        0,
        0,
    ));
    assert_eq!(
        clamped,
        Some(MouseEvent::Press(MouseButton::Left, Position { line: 0, column: 0 }))
    );
}

#[test]
fn mouse_kinds_decode_per_policy() {
    let position = Position { line: 9, column: 4 };
    assert_eq!(
        MouseEvent::from_raw(mouse_event(RawMouseKind::ScrollUp, 5, 10)),
        Some(MouseEvent::Press(MouseButton::WheelUp, position))
    );
    assert_eq!(
        MouseEvent::from_raw(mouse_event(RawMouseKind::ScrollDown, 5, 10)),
        Some(MouseEvent::Press(MouseButton::WheelDown, position))
    );
    assert_eq!(
        MouseEvent::from_raw(mouse_event(RawMouseKind::Up(RawMouseButton::Right), 5, 10)),
        Some(MouseEvent::Release(position))
    );
    assert_eq!(
        MouseEvent::from_raw(mouse_event(RawMouseKind::Drag(RawMouseButton::Left), 5, 10)),
        Some(MouseEvent::Hold(position))
    );
    assert_eq!(
        MouseEvent::from_raw(mouse_event(RawMouseKind::Moved, 5, 10)),
        None
    );
}

#[test]
fn parse_keys_maps_bytes_in_order() {
    let keys = parse_keys(b"abc");
    assert_eq!(keys, vec![Key::Char('a'), Key::Char('b'), Key::Char('c')]);
}

#[test]
fn parse_keys_maps_control_bytes() {
    let keys = parse_keys(&[0x01, 0x1A, 0x09, 0x0A, 0x0D, 0x1B, 0x7F, 0x00]);
    assert_eq!(
        keys,
        vec![
            Key::Ctrl('a'),
            Key::Ctrl('z'),
            Key::Char('\t'),
            Key::Char('\n'),
            Key::Char('\n'),
            Key::Esc,
            Key::Backspace,
            Key::Null,
        ]
    );
}

#[test]
fn parse_keys_skips_unmapped_bytes() {
    let keys = parse_keys(&[0x80, 0x61, 0x1C, 0x62]);
    assert_eq!(keys, vec![Key::Char('a'), Key::Char('b')]);
}
