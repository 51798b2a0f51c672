use zellij_input::actions::{Action, ClientInstruction, ClientToServerMsg, ExitReason};
use zellij_input::handler::{input_loop, InputHandler, Options};
use zellij_input::key::{InputMode, Key};
use zellij_input::keybinds::Keybinds;
use zellij_input::mouse::{MouseButton, MouseEvent, Position};
use zellij_input::os_api::{MockOsApi, OsEventRec};
use zellij_input::raw::{RawEvent, RawKeyCode, RawKeyEvent, RawMouseEvent, RawMouseKind, RAW_MOD_NONE};

fn no_mouse_options() -> Options {
    Options { disable_mouse_mode: true }
}

fn key_press(c: char) -> RawEvent {
    RawEvent::Key(RawKeyEvent { code: RawKeyCode::Char(c), modifiers: RAW_MOD_NONE })
}

fn sent(action: Action) -> OsEventRec {
    OsEventRec::SentToServer(ClientToServerMsg::Action(action))
}

fn handler_with(
    keybinds: Keybinds,
    mode: InputMode,
    incoming: Vec<RawEvent>,
) -> InputHandler<MockOsApi> {
    InputHandler::new(MockOsApi::new(incoming), keybinds, no_mouse_options(), mode)
}

#[test]
fn unbound_key_resolves_to_no_actions() {
    let mut keybinds = Keybinds::new();
    keybinds.add_binding(InputMode::Normal, Key::Char('q'), vec![Action::Quit]);
    let resolved = Keybinds::key_to_actions(&Key::Char('z'), &InputMode::Normal, &keybinds);
    assert!(resolved.is_empty());
    let other_mode = Keybinds::key_to_actions(&Key::Char('q'), &InputMode::Pane, &keybinds);
    assert!(other_mode.is_empty());
    let empty_table = Keybinds::new();
    let nothing = Keybinds::key_to_actions(&Key::Char('q'), &InputMode::Normal, &empty_table);
    assert!(nothing.is_empty());
}

#[test]
fn first_matching_binding_wins_in_table_order() {
    let mut keybinds = Keybinds::new();
    keybinds.add_binding(InputMode::Pane, Key::Char('x'), vec![Action::CloseFocus]);
    keybinds.add_binding(InputMode::Pane, Key::Char('x'), vec![Action::Quit]);
    let resolved = Keybinds::key_to_actions(&Key::Char('x'), &InputMode::Pane, &keybinds);
    assert_eq!(resolved, vec![Action::CloseFocus]);
}

#[test]
fn quit_sets_exit_flag_in_any_mode() {
    let modes = vec![
        InputMode::Normal,
        InputMode::Locked,
        InputMode::Resize,
        InputMode::Pane,
        InputMode::Tab,
        InputMode::Scroll,
        InputMode::RenameTab,
        InputMode::Session,
    ];
    for mode in modes {
        let mut handler = handler_with(Keybinds::new(), mode, vec![]);
        let should_break = handler.dispatch_action(Action::Quit);
        assert!(should_break);
        assert!(handler.should_exit);
        assert_eq!(
            handler.os_input.recorded,
            vec![
                sent(Action::Quit),
                OsEventRec::SentToClient(ClientInstruction::Exit(ExitReason::Normal)),
            ]
        );
    }
}

#[test]
fn detach_also_stops_the_loop() {
    let mut handler = handler_with(Keybinds::new(), InputMode::Session, vec![]);
    let should_break = handler.dispatch_action(Action::Detach);
    assert!(should_break);
    assert!(handler.should_exit);
}

#[test]
fn switch_to_mode_updates_the_mirror_for_later_resolutions() {
    let mut keybinds = Keybinds::new();
    keybinds.add_binding(
        InputMode::Normal,
        Key::Char('p'),
        vec![Action::SwitchToMode(InputMode::Pane)],
    );
    keybinds.add_binding(InputMode::Pane, Key::Char('x'), vec![Action::CloseFocus]);
    keybinds.add_binding(InputMode::Normal, Key::Char('x'), vec![Action::Quit]);
    let mut handler = handler_with(keybinds, InputMode::Normal, vec![]);

    handler.handle_key(&Key::Char('p'));
    assert_eq!(handler.mode, InputMode::Pane);

    // The same physical key now resolves through the Pane bindings.
    handler.handle_key(&Key::Char('x'));
    assert_eq!(
        handler.os_input.recorded,
        vec![
            sent(Action::SwitchToMode(InputMode::Pane)),
            OsEventRec::GateEngaged,
            sent(Action::CloseFocus),
            OsEventRec::GateReleaseObserved,
        ]
    );
    assert!(!handler.should_exit);
}

#[test]
fn structural_action_is_fenced_by_the_gate() {
    let mut handler = handler_with(Keybinds::new(), InputMode::Pane, vec![]);
    let should_break = handler.dispatch_action(Action::CloseFocus);
    assert!(!should_break);
    assert_eq!(
        handler.os_input.recorded,
        vec![
            OsEventRec::GateEngaged,
            sent(Action::CloseFocus),
            OsEventRec::GateReleaseObserved,
        ]
    );
}

#[test]
fn no_later_key_is_dispatched_before_the_gate_releases() {
    let mut keybinds = Keybinds::new();
    keybinds.add_binding(InputMode::Pane, Key::Char('x'), vec![Action::CloseFocus]);
    keybinds.add_binding(InputMode::Pane, Key::Char('n'), vec![Action::NewTab]);
    let handler = input_loop(
        MockOsApi::new(vec![key_press('x'), key_press('n')]),
        keybinds,
        no_mouse_options(),
        InputMode::Pane,
    );
    // Both structural dispatches complete their engage/send/release
    // handshake before anything later goes out.
    assert_eq!(
        handler.os_input.recorded,
        vec![
            OsEventRec::GateEngaged,
            sent(Action::CloseFocus),
            OsEventRec::GateReleaseObserved,
            OsEventRec::GateEngaged,
            sent(Action::NewTab),
            OsEventRec::GateReleaseObserved,
            OsEventRec::SentToClient(ClientInstruction::Exit(ExitReason::InputLost)),
        ]
    );
}

#[test]
fn hold_dispatches_once_and_starts_the_repeater() {
    let mut handler = handler_with(Keybinds::new(), InputMode::Normal, vec![]);
    let position = Position { line: 3, column: 7 };
    handler.handle_mouse_event(&MouseEvent::Hold(position));
    assert_eq!(
        handler.os_input.recorded,
        vec![
            sent(Action::MouseHold(position)),
            OsEventRec::RepeaterStarted(Action::MouseHold(position)),
        ]
    );
}

#[test]
fn release_cancels_the_repeater_before_its_action_goes_out() {
    let mut handler = handler_with(Keybinds::new(), InputMode::Normal, vec![]);
    let position = Position { line: 3, column: 7 };
    handler.handle_mouse_event(&MouseEvent::Hold(position));
    handler.handle_mouse_event(&MouseEvent::Release(position));
    assert_eq!(
        handler.os_input.recorded,
        vec![
            sent(Action::MouseHold(position)),
            OsEventRec::RepeaterStarted(Action::MouseHold(position)),
            OsEventRec::RepeaterCancelled,
            sent(Action::MouseRelease(position)),
        ]
    );
    // Nothing is recorded after the cancellation but the release itself:
    // zero repeats occur once cancelled.
    assert_eq!(handler.os_input.recorded.len(), 4);
}

#[test]
fn left_press_clicks_and_other_presses_do_nothing() {
    let mut handler = handler_with(Keybinds::new(), InputMode::Normal, vec![]);
    let position = Position { line: 1, column: 2 };
    handler.handle_mouse_event(&MouseEvent::Press(MouseButton::Left, position));
    handler.handle_mouse_event(&MouseEvent::Press(MouseButton::Right, position));
    handler.handle_mouse_event(&MouseEvent::Press(MouseButton::Middle, position));
    assert_eq!(handler.os_input.recorded, vec![sent(Action::LeftClick(position))]);
}

#[test]
fn end_to_end_quit_key_sends_once_and_stops() {
    let mut keybinds = Keybinds::new();
    keybinds.add_binding(InputMode::Normal, Key::Char('q'), vec![Action::Quit]);
    // A further key sits in the queue; the loop must stop before it.
    let handler = input_loop(
        MockOsApi::new(vec![key_press('q'), key_press('n')]),
        keybinds,
        no_mouse_options(),
        InputMode::Normal,
    );
    assert!(handler.should_exit);
    assert_eq!(
        handler.os_input.recorded,
        vec![
            sent(Action::Quit),
            OsEventRec::SentToClient(ClientInstruction::Exit(ExitReason::Normal)),
        ]
    );
}

#[test]
fn end_to_end_wheel_up_scrolls_at_the_decoded_position() {
    let mut keybinds = Keybinds::new();
    keybinds.add_binding(InputMode::Normal, Key::Char('q'), vec![Action::Quit]);
    let wheel_up = RawEvent::Mouse(RawMouseEvent { kind: RawMouseKind::ScrollUp, column: 5, row: 10 });
    let handler = input_loop(
        MockOsApi::new(vec![wheel_up, key_press('q')]),
        keybinds,
        no_mouse_options(),
        InputMode::Normal,
    );
    assert_eq!(
        handler.os_input.recorded,
        vec![
            sent(Action::ScrollUpAt(Position { line: 9, column: 4 })),
            sent(Action::Quit),
            OsEventRec::SentToClient(ClientInstruction::Exit(ExitReason::Normal)),
        ]
    );
}

#[test]
fn mouse_mode_is_requested_when_configured() {
    let handler = input_loop(
        MockOsApi::new(vec![]),
        Keybinds::new(),
        Options { disable_mouse_mode: false },
        InputMode::Normal,
    );
    assert_eq!(
        handler.os_input.recorded,
        vec![
            OsEventRec::MouseModeEnabled,
            OsEventRec::SentToClient(ClientInstruction::Exit(ExitReason::InputLost)),
        ]
    );
}

#[test]
fn exhausted_event_source_surfaces_input_lost() {
    let handler = input_loop(
        MockOsApi::new(vec![RawEvent::Resize(80, 24)]),
        Keybinds::new(),
        no_mouse_options(),
        InputMode::Normal,
    );
    assert!(handler.should_exit);
    assert_eq!(
        handler.os_input.recorded,
        vec![OsEventRec::SentToClient(ClientInstruction::Exit(ExitReason::InputLost))]
    );
}

#[test]
fn one_key_dispatches_all_bound_actions_in_table_order() {
    let mut keybinds = Keybinds::new();
    keybinds.add_binding(
        InputMode::Normal,
        Key::Char('n'),
        vec![Action::NewPane(None), Action::SwitchToMode(InputMode::Pane)],
    );
    let mut handler = handler_with(keybinds, InputMode::Normal, vec![]);
    handler.handle_key(&Key::Char('n'));
    assert_eq!(handler.mode, InputMode::Pane);
    assert_eq!(
        handler.os_input.recorded,
        vec![
            OsEventRec::GateEngaged,
            sent(Action::NewPane(None)),
            OsEventRec::GateReleaseObserved,
            sent(Action::SwitchToMode(InputMode::Pane)),
        ]
    );
}
