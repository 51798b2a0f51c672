//! The action protocol spoken to the server, and its classification.
//!
//! An action is a tagged protocol message. This core only special-cases a
//! subset: the terminal actions (`Quit`, `Detach`) end the loop, a mode
//! switch mutates the local mode mirror, and the structural actions (pane
//! and tab create/close/focus/navigate) are serialized through a blocking
//! gate. Every other variant is forwarded unconditionally.

use vstd::prelude::*;

use crate::key::InputMode;
use crate::mouse::Position;

verus! {

/// A direction for focus movement and pane splits.
#[derive(Clone, Copy, Debug, PartialEq, Eq, Structural)]
pub enum Direction {
    Left,
    Right,
    Up,
    Down,
}

/// An abstract command sent from client to server describing a requested
/// session change.
#[derive(Clone, Debug, PartialEq, Eq)]
pub enum Action {
    Quit,
    Detach,
    SwitchToMode(InputMode),
    Write(Vec<u8>),
    ScrollUpAt(Position),
    ScrollDownAt(Position),
    LeftClick(Position),
    MouseRelease(Position),
    MouseHold(Position),
    CloseFocus,
    NewPane(Option<Direction>),
    NewTab,
    GoToNextTab,
    GoToPreviousTab,
    CloseTab,
    GoToTab(u32),
    ToggleTab,
    MoveFocusOrTab(Direction),
}

/// The mathematical model of an [`Action`]: the same tag, with written bytes
/// as a sequence.
pub enum ActionView {
    Quit,
    Detach,
    SwitchToMode(InputMode),
    Write(Seq<u8>),
    ScrollUpAt(Position),
    ScrollDownAt(Position),
    LeftClick(Position),
    MouseRelease(Position),
    MouseHold(Position),
    CloseFocus,
    NewPane(Option<Direction>),
    NewTab,
    GoToNextTab,
    GoToPreviousTab,
    CloseTab,
    GoToTab(u32),
    ToggleTab,
    MoveFocusOrTab(Direction),
}

impl View for Action {
    type V = ActionView;

    open spec fn view(&self) -> ActionView {
        match self {
            Action::Quit => ActionView::Quit,
            Action::Detach => ActionView::Detach,
            Action::SwitchToMode(mode) => ActionView::SwitchToMode(*mode),
            Action::Write(bytes) => ActionView::Write(bytes@),
            Action::ScrollUpAt(position) => ActionView::ScrollUpAt(*position),
            Action::ScrollDownAt(position) => ActionView::ScrollDownAt(*position),
            Action::LeftClick(position) => ActionView::LeftClick(*position),
            Action::MouseRelease(position) => ActionView::MouseRelease(*position),
            Action::MouseHold(position) => ActionView::MouseHold(*position),
            Action::CloseFocus => ActionView::CloseFocus,
            Action::NewPane(direction) => ActionView::NewPane(*direction),
            Action::NewTab => ActionView::NewTab,
            Action::GoToNextTab => ActionView::GoToNextTab,
            Action::GoToPreviousTab => ActionView::GoToPreviousTab,
            Action::CloseTab => ActionView::CloseTab,
            Action::GoToTab(index) => ActionView::GoToTab(*index),
            Action::ToggleTab => ActionView::ToggleTab,
            Action::MoveFocusOrTab(direction) => ActionView::MoveFocusOrTab(*direction),
        }
    }
}

/// Whether an action terminates the input loop.
pub open spec fn is_terminal_action(action: ActionView) -> bool {
    action == ActionView::Quit || action == ActionView::Detach
}

/// Whether an action mutates the shared layout tree on the server and must
/// therefore be serialized through the blocking gate.
pub open spec fn is_structural_action(action: ActionView) -> bool {
    match action {
        ActionView::CloseFocus => true,
        ActionView::NewPane(_) => true,
        ActionView::NewTab => true,
        ActionView::GoToNextTab => true,
        ActionView::GoToPreviousTab => true,
        ActionView::CloseTab => true,
        ActionView::GoToTab(_) => true,
        ActionView::ToggleTab => true,
        ActionView::MoveFocusOrTab(_) => true,
        _ => false,
    }
}

/// The mode mirror after dispatching one action in the given mode.
pub open spec fn mode_apply(mode: InputMode, action: ActionView) -> InputMode {
    match action {
        ActionView::SwitchToMode(new_mode) => new_mode,
        _ => mode,
    }
}

/// Tests whether an action is a terminal one (`Quit` or `Detach`).
pub fn action_is_terminal(action: &Action) -> (terminal: bool)
    ensures
        terminal == is_terminal_action(action@),
{
    match action {
        Action::Quit => true,
        Action::Detach => true,
        _ => false,
    }
}

/// Tests whether an action belongs to the structural, gate-blocking class.
pub fn action_is_structural(action: &Action) -> (structural: bool)
    ensures
        structural == is_structural_action(action@),
{
    match action {
        Action::CloseFocus => true,
        Action::NewPane(_) => true,
        Action::NewTab => true,
        Action::GoToNextTab => true,
        Action::GoToPreviousTab => true,
        Action::CloseTab => true,
        Action::GoToTab(_) => true,
        Action::ToggleTab => true,
        Action::MoveFocusOrTab(_) => true,
        _ => false,
    }
}

/// Copies an action; the copy has the same model.
pub fn clone_action(action: &Action) -> (copy: Action)
    ensures
        copy@ == action@,
{
    match action {
        Action::Quit => Action::Quit,
        Action::Detach => Action::Detach,
        Action::SwitchToMode(mode) => Action::SwitchToMode(*mode),
        Action::Write(bytes) => {
            let mut copied: Vec<u8> = Vec::new();
            let mut i: usize = 0;
            while i < bytes.len()
                invariant
                    i <= bytes.len(),
                    copied@ == bytes@.take(i as int),
                decreases bytes.len() - i,
            {
                copied.push(bytes[i]);
                proof {
                    assert(copied@ =~= bytes@.take(i + 1 as int));
                }
                i = i + 1;
            }
            proof {
                assert(copied@ =~= bytes@);
            }
            Action::Write(copied)
        },
        Action::ScrollUpAt(position) => Action::ScrollUpAt(*position),
        Action::ScrollDownAt(position) => Action::ScrollDownAt(*position),
        Action::LeftClick(position) => Action::LeftClick(*position),
        Action::MouseRelease(position) => Action::MouseRelease(*position),
        Action::MouseHold(position) => Action::MouseHold(*position),
        Action::CloseFocus => Action::CloseFocus,
        Action::NewPane(direction) => Action::NewPane(*direction),
        Action::NewTab => Action::NewTab,
        Action::GoToNextTab => Action::GoToNextTab,
        Action::GoToPreviousTab => Action::GoToPreviousTab,
        Action::CloseTab => Action::CloseTab,
        Action::GoToTab(index) => Action::GoToTab(*index),
        Action::ToggleTab => Action::ToggleTab,
        Action::MoveFocusOrTab(direction) => Action::MoveFocusOrTab(*direction),
    }
}

/// The models of a sequence of actions, in order.
pub open spec fn views_of(actions: Seq<Action>) -> Seq<ActionView> {
    actions.map_values(|action: Action| action@)
}

/// Appending an action appends its model.
pub proof fn lemma_views_of_push(actions: Seq<Action>, action: Action)
    ensures
        views_of(actions.push(action)) == views_of(actions).push(action@),
{
    assert(views_of(actions.push(action)) =~= views_of(actions).push(action@));
}

/// The reason the client is told its session ends.
#[derive(Clone, Copy, Debug, PartialEq, Eq, Structural)]
pub enum ExitReason {
    /// The session ended on request, through a terminal action.
    Normal,
    /// The raw event source cannot supply further events.
    InputLost,
}

/// A one-way notification to the owning client process.
#[derive(Clone, Copy, Debug, PartialEq, Eq, Structural)]
pub enum ClientInstruction {
    /// The session is ending.
    Exit(ExitReason),
}

/// A tagged protocol message posted to the server.
#[derive(Clone, Debug, PartialEq, Eq)]
pub enum ClientToServerMsg {
    Action(Action),
}

/// The mathematical model of a [`ClientToServerMsg`].
pub enum ClientToServerMsgView {
    Action(ActionView),
}

impl View for ClientToServerMsg {
    type V = ClientToServerMsgView;

    open spec fn view(&self) -> ClientToServerMsgView {
        match self {
            ClientToServerMsg::Action(action) => ClientToServerMsgView::Action(action@),
        }
    }
}

} // verus!
