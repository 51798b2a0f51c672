use zellij_input::actions::{Action, ClientInstruction, ClientToServerMsg, ExitReason};
use zellij_input::handler::{input_loop, Options};
use zellij_input::key::{InputMode, Key};
use zellij_input::keybinds::Keybinds;
use zellij_input::mode_info::{get_mode_info, Palette, PaletteColor, PluginCapabilities};
use zellij_input::os_api::{MockOsApi, OsEventRec};
use zellij_input::raw::{RawEvent, RawKeyCode, RawKeyEvent, RAW_MOD_NONE};

fn no_mouse_options() -> Options {
    Options { disable_mouse_mode: true }
}

fn key_press(c: char) -> RawEvent {
    RawEvent::Key(RawKeyEvent { code: RawKeyCode::Char(c), modifiers: RAW_MOD_NONE })
}

fn sent(action: Action) -> OsEventRec {
    OsEventRec::SentToServer(ClientToServerMsg::Action(action))
}

fn input_lost() -> OsEventRec {
    OsEventRec::SentToClient(ClientInstruction::Exit(ExitReason::InputLost))
}

#[test]
fn pasted_bytes_are_forwarded_as_one_write_in_locked_mode() {
    // Even bytes whose keys carry bindings are treated as literal text.
    let mut keybinds = Keybinds::new();
    keybinds.add_binding(InputMode::Locked, Key::Char('b'), vec![Action::Quit]);
    let incoming = vec![
        RawEvent::PasteStart,
        key_press('a'),
        key_press('b'),
        key_press('c'),
        RawEvent::PasteEnd,
    ];
    let handler = input_loop(
        MockOsApi::new(incoming),
        keybinds,
        no_mouse_options(),
        InputMode::Locked,
    );
    assert_eq!(
        handler.os_input.recorded,
        vec![sent(Action::Write(vec![97, 98, 99])), input_lost()]
    );
}

#[test]
fn pasted_bytes_are_forwarded_in_normal_mode() {
    let incoming = vec![RawEvent::PasteStart, key_press('h'), key_press('i'), RawEvent::PasteEnd];
    let handler = input_loop(
        MockOsApi::new(incoming),
        Keybinds::new(),
        no_mouse_options(),
        InputMode::Normal,
    );
    assert_eq!(
        handler.os_input.recorded,
        vec![sent(Action::Write(vec![104, 105])), input_lost()]
    );
}

#[test]
fn pasted_bytes_are_discarded_in_pane_mode() {
    let incoming = vec![
        RawEvent::PasteStart,
        key_press('a'),
        key_press('b'),
        key_press('c'),
        RawEvent::PasteEnd,
    ];
    let handler = input_loop(
        MockOsApi::new(incoming),
        Keybinds::new(),
        no_mouse_options(),
        InputMode::Pane,
    );
    assert_eq!(handler.os_input.recorded, vec![input_lost()]);
}

#[test]
fn empty_paste_emits_one_empty_write() {
    let incoming = vec![RawEvent::PasteStart, RawEvent::PasteEnd];
    let handler = input_loop(
        MockOsApi::new(incoming),
        Keybinds::new(),
        no_mouse_options(),
        InputMode::Normal,
    );
    assert_eq!(
        handler.os_input.recorded,
        vec![sent(Action::Write(vec![])), input_lost()]
    );
}

#[test]
fn pasted_text_beyond_ascii_keeps_its_utf8_bytes() {
    let incoming = vec![RawEvent::PasteStart, key_press('é'), RawEvent::PasteEnd];
    let handler = input_loop(
        MockOsApi::new(incoming),
        Keybinds::new(),
        no_mouse_options(),
        InputMode::Normal,
    );
    assert_eq!(
        handler.os_input.recorded,
        vec![sent(Action::Write(vec![0xC3, 0xA9])), input_lost()]
    );
}

#[test]
fn non_char_keys_add_no_paste_bytes() {
    let incoming = vec![
        RawEvent::PasteStart,
        key_press('a'),
        RawEvent::Key(RawKeyEvent { code: RawKeyCode::Left, modifiers: RAW_MOD_NONE }),
        RawEvent::PasteEnd,
    ];
    let handler = input_loop(
        MockOsApi::new(incoming),
        Keybinds::new(),
        no_mouse_options(),
        InputMode::Normal,
    );
    assert_eq!(
        handler.os_input.recorded,
        vec![sent(Action::Write(vec![97])), input_lost()]
    );
}

fn plain_palette() -> Palette {
    let color = PaletteColor::EightBit(0);
    Palette {
        fg: color,
        bg: color,
        black: color,
        red: color,
        green: color,
        yellow: color,
        blue: color,
        magenta: color,
        cyan: color,
        white: color,
        orange: color,
    }
}

#[test]
fn mode_info_passes_its_inputs_through() {
    let info = get_mode_info(
        InputMode::Normal,
        plain_palette(),
        PluginCapabilities { arrow_fonts: true },
        Some("workbench".to_owned()),
    );
    assert_eq!(info.mode, InputMode::Normal);
    assert_eq!(info.palette, plain_palette());
    assert!(info.capabilities.arrow_fonts);
    assert_eq!(info.session_name, Some("workbench".to_owned()));
    assert!(info.keybinds.is_empty());
}

#[test]
fn mode_info_lists_the_pane_hints_in_order() {
    let info = get_mode_info(
        InputMode::Pane,
        plain_palette(),
        PluginCapabilities { arrow_fonts: false },
        None,
    );
    let expected = vec![
        ("←↓↑→", "Move focus"),
        ("p", "Next"),
        ("n", "New"),
        ("d", "Down split"),
        ("r", "Right split"),
        ("x", "Close"),
        ("f", "Fullscreen"),
        ("z", "Frames"),
    ];
    assert_eq!(info.keybinds.len(), expected.len());
    for (pair, (key, description)) in info.keybinds.iter().zip(expected) {
        assert_eq!(pair.0, key);
        assert_eq!(pair.1, description);
    }
}

#[test]
fn mode_info_hints_per_mode() {
    let capabilities = PluginCapabilities { arrow_fonts: false };
    let locked = get_mode_info(InputMode::Locked, plain_palette(), capabilities, None);
    assert!(locked.keybinds.is_empty());
    let resize = get_mode_info(InputMode::Resize, plain_palette(), capabilities, None);
    assert_eq!(resize.keybinds, vec![("←↓↑→".to_owned(), "Resize".to_owned())]);
    let tab = get_mode_info(InputMode::Tab, plain_palette(), capabilities, None);
    assert_eq!(tab.keybinds.len(), 6);
    let scroll = get_mode_info(InputMode::Scroll, plain_palette(), capabilities, None);
    assert_eq!(scroll.keybinds.len(), 2);
    let rename = get_mode_info(InputMode::RenameTab, plain_palette(), capabilities, None);
    assert_eq!(rename.keybinds, vec![("Enter".to_owned(), "when done".to_owned())]);
    let session = get_mode_info(InputMode::Session, plain_palette(), capabilities, None);
    assert_eq!(session.keybinds, vec![("d".to_owned(), "Detach".to_owned())]);
}
