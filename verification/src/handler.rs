//! The input event loop, the action dispatcher and the blocking gate policy.
//!
//! One dedicated thread reads raw events in order, decodes them, resolves
//! keys against the keybinding table for the current mode, and dispatches
//! the resulting actions. Terminal actions end the loop, a mode switch
//! mutates the local mode mirror, and structural actions are serialized by
//! engaging the blocking gate before the send and waiting for the
//! acknowledgment after it.

use vstd::prelude::*;

use crate::actions::{
    action_is_structural, action_is_terminal, clone_action, is_structural_action,
    is_terminal_action, mode_apply, views_of, Action, ActionView, ClientInstruction,
    ClientToServerMsg, ClientToServerMsgView, ExitReason,
};
use crate::key::{cast_crossterm_key, spec_cast_key, InputMode, Key};
use crate::keybinds::Keybinds;
use crate::mouse::{spec_decode_mouse, MouseButton, MouseEvent};
use crate::os_api::{ClientOsApi, OsEvent};
use crate::raw::RawEvent;
use crate::unicode::{paste_bytes_of, push_utf8};

verus! {

/// The configuration this core reads.
#[derive(Clone, Copy, Debug, PartialEq, Eq, Structural)]
pub struct Options {
    /// When set, mouse reporting is never requested from the terminal.
    pub disable_mouse_mode: bool,
}

/// The boundary effects dispatching one action has, in order. Terminal
/// actions are sent and followed by the session-ending notification;
/// structural actions are fenced by the blocking-gate handshake; everything else is a
/// plain send.
pub open spec fn dispatch_trace(action: ActionView) -> Seq<OsEvent> {
    if is_terminal_action(action) {
        seq![
            OsEvent::SentToServer(ClientToServerMsgView::Action(action)),
            OsEvent::SentToClient(ClientInstruction::Exit(ExitReason::Normal)),
        ]
    } else if is_structural_action(action) {
        seq![
            OsEvent::GateEngaged,
            OsEvent::SentToServer(ClientToServerMsgView::Action(action)),
            OsEvent::GateReleaseObserved,
        ]
    } else {
        seq![OsEvent::SentToServer(ClientToServerMsgView::Action(action))]
    }
}

/// The boundary effects of dispatching a sequence of actions in table order.
pub open spec fn trace_of(actions: Seq<ActionView>) -> Seq<OsEvent>
    decreases actions.len(),
{
    if actions.len() == 0 {
        Seq::empty()
    } else {
        trace_of(actions.drop_last()) + dispatch_trace(actions.last())
    }
}

/// The mode mirror after dispatching a sequence of actions in order.
pub open spec fn mode_after(mode: InputMode, actions: Seq<ActionView>) -> InputMode
    decreases actions.len(),
{
    if actions.len() == 0 {
        mode
    } else {
        mode_apply(mode_after(mode, actions.drop_last()), actions.last())
    }
}

/// Whether any action of the sequence is a terminal one.
pub open spec fn any_terminal(actions: Seq<ActionView>) -> bool
    decreases actions.len(),
{
    if actions.len() == 0 {
        false
    } else {
        any_terminal(actions.drop_last()) || is_terminal_action(actions.last())
    }
}

/// The boundary effects of one decoded mouse event: wheel and left presses
/// map to their scroll and click actions, a release cancels the repeater
/// before its action goes out, a hold dispatches once and starts the
/// repeater, and other presses have no effect.
pub open spec fn mouse_trace(event: MouseEvent) -> Seq<OsEvent> {
    match event {
        MouseEvent::Press(button, position) => match button {
            MouseButton::WheelUp => dispatch_trace(ActionView::ScrollUpAt(position)),
            MouseButton::WheelDown => dispatch_trace(ActionView::ScrollDownAt(position)),
            MouseButton::Left => dispatch_trace(ActionView::LeftClick(position)),
            _ => Seq::empty(),
        },
        MouseEvent::Release(position) => seq![OsEvent::RepeaterCancelled] + dispatch_trace(
            ActionView::MouseRelease(position),
        ),
        MouseEvent::Hold(position) => dispatch_trace(ActionView::MouseHold(position)) + seq![
            OsEvent::RepeaterStarted(ActionView::MouseHold(position)),
        ],
    }
}

/// Whether `prefix` is an initial segment of `trace`.
pub open spec fn trace_extends(prefix: Seq<OsEvent>, trace: Seq<OsEvent>) -> bool {
    prefix.len() <= trace.len() && trace.take(prefix.len() as int) == prefix
}

/// Handles the dispatching of actions according to the current input mode,
/// and keeps track of that mode. Owns the mode mirror, the pasting state and
/// the exit flag; they are read and written by the input thread alone.
pub struct InputHandler<T: ClientOsApi> {
    /// The current input mode, mirroring the server's view of this client.
    pub mode: InputMode,
    /// The injected OS/IPC capability.
    pub os_input: T,
    /// The externally supplied keybinding table, never mutated here.
    pub keybinds: Keybinds,
    /// The configuration this core reads.
    pub options: Options,
    /// Set once a terminal action was dispatched or the read failed; the
    /// loop stops at the next check.
    pub should_exit: bool,
    /// Whether the byte stream is inside a bracketed paste.
    pub pasting: bool,
    /// The bytes accumulated since the paste start marker.
    pub paste_buffer: Vec<u8>,
}

/// A notification to the owning client process that the session ends, for
/// whatever reason.
pub open spec fn is_exit_notice(event: OsEvent) -> bool {
    event matches OsEvent::SentToClient(ClientInstruction::Exit(_))
}

/// Whether a trace holds a session-ending notification somewhere.
pub open spec fn contains_exit_notice(trace: Seq<OsEvent>) -> bool {
    exists|i: int| 0 <= i < trace.len() && is_exit_notice(#[trigger] trace[i])
}

/// Whether a trace holds no mouse-mode request at all.
pub open spec fn no_mouse_enable(trace: Seq<OsEvent>) -> bool {
    forall|i: int| 0 <= i < trace.len() ==> !((#[trigger] trace[i]) is MouseModeEnabled)
}

/// The state of the loop that one processing step can touch: the boundary
/// trace, the mode mirror, the exit flag and the paste machinery. The
/// keybinding table and the options stay fixed and are passed alongside.
#[verifier::ext_equal]
pub struct LoopState {
    pub events: Seq<OsEvent>,
    pub mode: InputMode,
    pub should_exit: bool,
    pub pasting: bool,
    pub paste_buffer: Seq<u8>,
}

/// The loop-visible state of a handler.
pub open spec fn loop_state<T: ClientOsApi>(handler: InputHandler<T>) -> LoopState {
    LoopState {
        events: handler.os_input.events(),
        mode: handler.mode,
        should_exit: handler.should_exit,
        pasting: handler.pasting,
        paste_buffer: handler.paste_buffer@,
    }
}

/// What processing one raw event does to the loop state: decoded keys are
/// resolved and dispatched (or accumulated while pasting), decoded mouse
/// events follow the mouse policy, paste markers toggle the pasting state
/// (the end marker forwards the accumulated bytes as one write action in the
/// text-entry modes and discards them in every other mode), and events with
/// no defined mapping, as well as resize events, which belong to the layout
/// collaborator, have no effect at all. A step only appends to the trace; it
/// never requests mouse mode; and it raises the exit flag only together with
/// a session-ending notification.
pub open spec fn step_rel(
    keybinds: Keybinds,
    pre: LoopState,
    post: LoopState,
    event: RawEvent,
) -> bool {
    &&& trace_extends(pre.events, post.events)
    &&& no_mouse_enable(post.events.skip(pre.events.len() as int))
    &&& (post.should_exit ==> pre.should_exit || contains_exit_notice(
        post.events.skip(pre.events.len() as int),
    ))
    &&& match event {
        RawEvent::Key(raw) => match spec_cast_key(raw) {
            Option::None => post == pre,
            Option::Some(key) => if pre.pasting {
                &&& post.events == pre.events
                &&& post.mode == pre.mode
                &&& post.should_exit == pre.should_exit
                &&& post.pasting
                &&& post.paste_buffer == pre.paste_buffer + paste_bytes_of(key)
            } else {
                &&& post.events == pre.events + trace_of(
                    keybinds.actions_for(pre.mode, key),
                )
                &&& post.mode == mode_after(pre.mode, keybinds.actions_for(pre.mode, key))
                &&& post.should_exit == (pre.should_exit || any_terminal(
                    keybinds.actions_for(pre.mode, key),
                ))
                &&& post.pasting == pre.pasting
                &&& post.paste_buffer == pre.paste_buffer
            },
        },
        RawEvent::Mouse(raw) => match spec_decode_mouse(raw) {
            Option::None => post == pre,
            Option::Some(decoded) => {
                &&& post.events == pre.events + mouse_trace(decoded)
                &&& post.mode == pre.mode
                &&& post.should_exit == pre.should_exit
                &&& post.pasting == pre.pasting
                &&& post.paste_buffer == pre.paste_buffer
            },
        },
        RawEvent::Resize(_, _) => post == pre,
        RawEvent::PasteStart => {
            &&& post.events == pre.events
            &&& post.mode == pre.mode
            &&& post.should_exit == pre.should_exit
            &&& post.pasting
            &&& post.paste_buffer == Seq::<u8>::empty()
        },
        RawEvent::PasteEnd => {
            &&& post.events == pre.events + (
            if pre.mode == InputMode::Normal || pre.mode == InputMode::Locked {
                dispatch_trace(ActionView::Write(pre.paste_buffer))
            } else {
                Seq::empty()
            })
            &&& post.mode == pre.mode
            &&& post.should_exit == pre.should_exit
            &&& !post.pasting
            &&& post.paste_buffer == Seq::<u8>::empty()
        },
    }
}

/// What processing one raw event does to the handler: one [`step_rel`] step
/// on the loop state, with the table, the options and the number of events
/// still to come untouched.
pub open spec fn step_post<T: ClientOsApi>(
    pre: InputHandler<T>,
    post: InputHandler<T>,
    event: RawEvent,
) -> bool {
    &&& post.keybinds == pre.keybinds
    &&& post.options == pre.options
    &&& post.os_input.events_remaining() == pre.os_input.events_remaining()
    &&& step_rel(pre.keybinds, loop_state(pre), loop_state(post), event)
}

/// From `pre`, processing the raw events of `processed` one step at a time —
/// never entering a step with the exit flag already raised — reaches `post`.
pub open spec fn steps_reach(
    keybinds: Keybinds,
    pre: LoopState,
    post: LoopState,
    processed: Seq<RawEvent>,
) -> bool
    decreases processed.len(),
{
    if processed.len() == 0 {
        post == pre
    } else {
        exists|mid: LoopState|
            {
                &&& steps_reach(keybinds, pre, mid, processed.drop_last())
                &&& !mid.should_exit
                &&& #[trigger] step_rel(keybinds, mid, post, processed.last())
            }
    }
}

/// The loop state the event loop starts from: the entry trace plus the
/// mouse-mode request when configuration permits it.
pub open spec fn entry_state_of<T: ClientOsApi>(handler: InputHandler<T>) -> LoopState {
    LoopState {
        events: handler.os_input.events() + (if handler.options.disable_mouse_mode {
            Seq::<OsEvent>::empty()
        } else {
            seq![OsEvent::MouseModeEnabled]
        }),
        mode: handler.mode,
        should_exit: handler.should_exit,
        pasting: handler.pasting,
        paste_buffer: handler.paste_buffer@,
    }
}

/// The loop state after the raw event source fails: the input-lost
/// notification goes out and the exit flag is raised; nothing else moves.
pub open spec fn input_lost_outcome(reached: LoopState) -> LoopState {
    LoopState {
        events: reached.events.push(
            OsEvent::SentToClient(ClientInstruction::Exit(ExitReason::InputLost)),
        ),
        mode: reached.mode,
        should_exit: true,
        pasting: reached.pasting,
        paste_buffer: reached.paste_buffer,
    }
}

/// How the event loop ends, seen from its entry state: some sequence of raw
/// events is processed step by step, each step entered with the exit flag
/// clear, until either a step raises the flag, or the raw event source fails
/// and the input-lost notification closes the trace.
pub open spec fn loop_outcome(
    keybinds: Keybinds,
    entry: LoopState,
    outcome: LoopState,
) -> bool {
    exists|processed: Seq<RawEvent>, reached: LoopState|
        {
            &&& #[trigger] steps_reach(keybinds, entry, reached, processed)
            &&& ((reached.should_exit && outcome == reached) || (!reached.should_exit && outcome
                == input_lost_outcome(reached)))
        }
}

/// What one step appends is exactly the appended tail.
proof fn lemma_appended_suffix(base: Seq<OsEvent>, tail: Seq<OsEvent>)
    ensures
        (base + tail).skip(base.len() as int) == tail,
        trace_extends(base, base + tail),
{
    assert((base + tail).skip(base.len() as int) =~= tail);
    assert((base + tail).take(base.len() as int) =~= base);
}

/// No single dispatch requests mouse mode.
proof fn lemma_no_mouse_in_dispatch_trace(action: ActionView)
    ensures
        no_mouse_enable(dispatch_trace(action)),
{
}

/// No dispatched action sequence requests mouse mode.
proof fn lemma_no_mouse_in_trace_of(actions: Seq<ActionView>)
    ensures
        no_mouse_enable(trace_of(actions)),
    decreases actions.len(),
{
    if actions.len() > 0 {
        lemma_no_mouse_in_trace_of(actions.drop_last());
        lemma_no_mouse_in_dispatch_trace(actions.last());
    }
}

/// No mouse policy effect requests mouse mode.
proof fn lemma_no_mouse_in_mouse_trace(event: MouseEvent)
    ensures
        no_mouse_enable(mouse_trace(event)),
{
    match event {
        MouseEvent::Press(button, position) => {
            lemma_no_mouse_in_dispatch_trace(ActionView::ScrollUpAt(position));
            lemma_no_mouse_in_dispatch_trace(ActionView::ScrollDownAt(position));
            lemma_no_mouse_in_dispatch_trace(ActionView::LeftClick(position));
        },
        MouseEvent::Release(position) => {
            lemma_no_mouse_in_dispatch_trace(ActionView::MouseRelease(position));
        },
        MouseEvent::Hold(position) => {
            lemma_no_mouse_in_dispatch_trace(ActionView::MouseHold(position));
        },
    }
}

/// A dispatched action sequence holding a terminal action emits the
/// session-ending notification somewhere in its trace.
proof fn lemma_terminal_trace_contains_exit(actions: Seq<ActionView>)
    requires
        any_terminal(actions),
    ensures
        contains_exit_notice(trace_of(actions)),
    decreases actions.len(),
{
    let prefix = trace_of(actions.drop_last());
    if is_terminal_action(actions.last()) {
        assert(trace_of(actions)[prefix.len() as int + 1] == dispatch_trace(actions.last())[1]);
        assert(is_exit_notice(trace_of(actions)[prefix.len() as int + 1]));
    } else {
        lemma_terminal_trace_contains_exit(actions.drop_last());
        let i = choose|i: int| 0 <= i < prefix.len() && is_exit_notice(#[trigger] prefix[i]);
        assert(trace_of(actions)[i] == prefix[i]);
        assert(is_exit_notice(trace_of(actions)[i]));
    }
}

/// A suffix free of mouse-mode requests stays free as the trace grows by a
/// step that appends none.
proof fn lemma_no_mouse_suffix_join(from: int, before: Seq<OsEvent>, after: Seq<OsEvent>)
    requires
        0 <= from <= before.len(),
        no_mouse_enable(before.skip(from)),
        trace_extends(before, after),
        no_mouse_enable(after.skip(before.len() as int)),
    ensures
        no_mouse_enable(after.skip(from)),
{
    assert forall|i: int| 0 <= i < after.skip(from).len() implies !((#[trigger] after.skip(
        from,
    )[i]) is MouseModeEnabled) by {
        if from + i < before.len() {
            assert(after[from + i] == after.take(before.len() as int)[from + i]);
            assert(before.skip(from)[i] == before[from + i]);
        } else {
            assert(after.skip(before.len() as int)[from + i - before.len()] == after[from + i]);
        }
    }
}

/// A session-ending notification in a narrow suffix stands in every wider
/// suffix of the same trace.
proof fn lemma_exit_suffix_widen(narrow_from: int, wide_from: int, trace: Seq<OsEvent>)
    requires
        0 <= wide_from <= narrow_from <= trace.len(),
        contains_exit_notice(trace.skip(narrow_from)),
    ensures
        contains_exit_notice(trace.skip(wide_from)),
{
    let i = choose|i: int| 0 <= i < trace.skip(narrow_from).len() && is_exit_notice(
        #[trigger] trace.skip(narrow_from)[i],
    );
    assert(trace.skip(narrow_from)[i] == trace[narrow_from + i]);
    assert(trace.skip(wide_from)[narrow_from + i - wide_from] == trace[narrow_from + i]);
    assert(is_exit_notice(trace.skip(wide_from)[narrow_from + i - wide_from]));
}

/// Extends a step-by-step run of the loop by one more processed event.
proof fn lemma_steps_reach_snoc(
    keybinds: Keybinds,
    entry: LoopState,
    mid: LoopState,
    post: LoopState,
    processed: Seq<RawEvent>,
    event: RawEvent,
)
    requires
        steps_reach(keybinds, entry, mid, processed),
        !mid.should_exit,
        step_rel(keybinds, mid, post, event),
    ensures
        steps_reach(keybinds, entry, post, processed.push(event)),
{
    let extended = processed.push(event);
    assert(extended.drop_last() =~= processed);
    assert(extended.last() == event);
    assert(steps_reach(keybinds, entry, mid, extended.drop_last()));
    assert(step_rel(keybinds, mid, post, extended.last()));
}

impl<T: ClientOsApi> InputHandler<T> {
    /// Returns a new handler with the attributes specified as arguments, not
    /// yet exiting and not pasting.
    pub fn new(os_input: T, keybinds: Keybinds, options: Options, mode: InputMode) -> (handler:
        InputHandler<T>)
        ensures
            handler.mode == mode,
            handler.os_input == os_input,
            handler.keybinds == keybinds,
            handler.options == options,
            !handler.should_exit,
            !handler.pasting,
            handler.paste_buffer@ == Seq::<u8>::empty(),
    {
        InputHandler {
            mode,
            os_input,
            keybinds,
            options,
            should_exit: false,
            pasting: false,
            paste_buffer: Vec::new(),
        }
    }

    /// Routine called when the input handler exits on request: notifies the
    /// owning client process that the session ends normally.
    fn exit(&mut self)
        ensures
            final(self).os_input.events() == old(self).os_input.events().push(
                OsEvent::SentToClient(ClientInstruction::Exit(ExitReason::Normal)),
            ),
            final(self).os_input.events_remaining() == old(self).os_input.events_remaining(),
            final(self).mode == old(self).mode,
            final(self).should_exit == old(self).should_exit,
            final(self).pasting == old(self).pasting,
            final(self).paste_buffer == old(self).paste_buffer,
            final(self).keybinds == old(self).keybinds,
            final(self).options == old(self).options,
    {
        self.os_input.send_client_instruction(ClientInstruction::Exit(ExitReason::Normal));
    }

    /// Dispatches one action: sends it to the server, applies its local
    /// effect (exit flag, mode mirror, gate handshake), and says whether the
    /// loop should stop after it.
    pub fn dispatch_action(&mut self, action: Action) -> (should_break: bool)
        ensures
            should_break == is_terminal_action(action@),
            final(self).os_input.events() == old(self).os_input.events() + dispatch_trace(
                action@,
            ),
            final(self).os_input.events_remaining() == old(self).os_input.events_remaining(),
            final(self).mode == mode_apply(old(self).mode, action@),
            final(self).should_exit == (old(self).should_exit || is_terminal_action(action@)),
            final(self).pasting == old(self).pasting,
            final(self).paste_buffer == old(self).paste_buffer,
            final(self).keybinds == old(self).keybinds,
            final(self).options == old(self).options,
    {
        let ghost action_view = action@;
        let ghost events_before = self.os_input.events();
        let terminal = action_is_terminal(&action);
        let structural = action_is_structural(&action);
        let switch_target: Option<InputMode> = match &action {
            Action::SwitchToMode(mode) => Some(*mode),
            _ => None,
        };
        if terminal {
            self.os_input.send_to_server(ClientToServerMsg::Action(action));
            self.exit();
            self.should_exit = true;
            proof {
                assert(self.os_input.events() =~= events_before + dispatch_trace(action_view));
            }
            true
        } else if let Some(new_mode) = switch_target {
            self.mode = new_mode;
            self.os_input.send_to_server(ClientToServerMsg::Action(action));
            proof {
                assert(self.os_input.events() =~= events_before + dispatch_trace(action_view));
            }
            false
        } else if structural {
            self.os_input.gate_engage();
            self.os_input.send_to_server(ClientToServerMsg::Action(action));
            self.os_input.gate_wait_release();
            proof {
                assert(self.os_input.events() =~= events_before + dispatch_trace(action_view));
            }
            false
        } else {
            self.os_input.send_to_server(ClientToServerMsg::Action(action));
            proof {
                assert(self.os_input.events() =~= events_before + dispatch_trace(action_view));
            }
            false
        }
    }

    /// Handles one decoded key. Inside a paste block the key is treated as
    /// literal text and accumulated; otherwise it is resolved against the
    /// keybinding table and the bound actions are dispatched in table order.
    pub fn handle_key(&mut self, key: &Key)
        ensures
            final(self).keybinds == old(self).keybinds,
            final(self).options == old(self).options,
            final(self).os_input.events_remaining() == old(self).os_input.events_remaining(),
            old(self).pasting ==> {
                &&& final(self).os_input.events() == old(self).os_input.events()
                &&& final(self).mode == old(self).mode
                &&& final(self).should_exit == old(self).should_exit
                &&& final(self).pasting
                &&& final(self).paste_buffer@ == old(self).paste_buffer@ + paste_bytes_of(*key)
            },
            !old(self).pasting ==> {
                &&& final(self).os_input.events() == old(self).os_input.events() + trace_of(
                    old(self).keybinds.actions_for(old(self).mode, *key),
                )
                &&& final(self).mode == mode_after(
                    old(self).mode,
                    old(self).keybinds.actions_for(old(self).mode, *key),
                )
                &&& final(self).should_exit == (old(self).should_exit || any_terminal(
                    old(self).keybinds.actions_for(old(self).mode, *key),
                ))
                &&& final(self).pasting == old(self).pasting
                &&& final(self).paste_buffer == old(self).paste_buffer
            },
    {
        if self.pasting {
            // Inside a paste block the key is literal text; commands must
            // not be interpreted from pasted bytes.
            match key {
                Key::Char(c) => {
                    push_utf8(&mut self.paste_buffer, *c);
                },
                _ => {
                    proof {
                        assert(self.paste_buffer@ =~= self.paste_buffer@ + paste_bytes_of(*key));
                    }
                },
            }
        } else {
            let ghost pre = *self;
            let ghost resolved = pre.keybinds.actions_for(pre.mode, *key);
            let actions = Keybinds::key_to_actions(key, &self.mode, &self.keybinds);
            let ghost action_views = views_of(actions@);
            let mut i: usize = 0;
            proof {
                assert(action_views.take(0) =~= Seq::<ActionView>::empty());
            }
            while i < actions.len()
                invariant
                    i <= actions.len(),
                    views_of(actions@) == action_views,
                    action_views == resolved,
                    actions@.len() == action_views.len(),
                    self.os_input.events() == pre.os_input.events() + trace_of(
                        action_views.take(i as int),
                    ),
                    self.mode == mode_after(pre.mode, action_views.take(i as int)),
                    self.should_exit == (pre.should_exit || any_terminal(
                        action_views.take(i as int),
                    )),
                    self.pasting == pre.pasting,
                    self.paste_buffer == pre.paste_buffer,
                    self.keybinds == pre.keybinds,
                    self.options == pre.options,
                    self.os_input.events_remaining() == pre.os_input.events_remaining(),
                decreases actions.len() - i,
            {
                let action = clone_action(&actions[i]);
                proof {
                    assert(action@ == action_views[i as int]);
                }
                let should_exit = self.dispatch_action(action);
                if should_exit {
                    self.should_exit = true;
                }
                proof {
                    let taken = action_views.take(i as int);
                    let taken_next = action_views.take(i + 1 as int);
                    assert(taken_next.drop_last() =~= taken);
                    assert(taken_next.last() == action_views[i as int]);
                    assert(self.os_input.events() =~= pre.os_input.events() + trace_of(
                        taken_next,
                    ));
                }
                i = i + 1;
            }
            proof {
                assert(action_views.take(action_views.len() as int) =~= action_views);
            }
        }
    }

    /// Handles one decoded mouse event per the mouse policy: wheel and left
    /// presses dispatch their scroll and click actions, a release cancels
    /// any active repeater before its action goes out, and a hold dispatches
    /// once and starts the repeater.
    pub fn handle_mouse_event(&mut self, mouse_event: &MouseEvent)
        ensures
            final(self).os_input.events() == old(self).os_input.events() + mouse_trace(
                *mouse_event,
            ),
            final(self).os_input.events_remaining() == old(self).os_input.events_remaining(),
            final(self).mode == old(self).mode,
            final(self).should_exit == old(self).should_exit,
            final(self).pasting == old(self).pasting,
            final(self).paste_buffer == old(self).paste_buffer,
            final(self).keybinds == old(self).keybinds,
            final(self).options == old(self).options,
    {
        let ghost events_before = self.os_input.events();
        match *mouse_event {
            MouseEvent::Press(button, point) => match button {
                MouseButton::WheelUp => {
                    self.dispatch_action(Action::ScrollUpAt(point));
                },
                MouseButton::WheelDown => {
                    self.dispatch_action(Action::ScrollDownAt(point));
                },
                MouseButton::Left => {
                    self.dispatch_action(Action::LeftClick(point));
                },
                _ => {
                    proof {
                        assert(self.os_input.events() =~= events_before + mouse_trace(
                            *mouse_event,
                        ));
                    }
                },
            },
            MouseEvent::Release(point) => {
                self.os_input.cancel_action_repeater();
                self.dispatch_action(Action::MouseRelease(point));
                proof {
                    assert(self.os_input.events() =~= events_before + mouse_trace(*mouse_event));
                }
            },
            MouseEvent::Hold(point) => {
                self.dispatch_action(Action::MouseHold(point));
                self.os_input.start_action_repeater(Action::MouseHold(point));
                proof {
                    assert(self.os_input.events() =~= events_before + mouse_trace(*mouse_event));
                }
            },
        }
    }

    /// Processes one raw event: decode, then resolve and dispatch, per
    /// [`step_post`]. An event with no defined mapping is dropped with zero
    /// observable effect.
    pub fn process_raw_event(&mut self, event: RawEvent)
        ensures
            step_post(*old(self), *final(self), event),
    {
        let ghost pre = *self;
        match event {
            RawEvent::Key(raw) => {
                match cast_crossterm_key(raw) {
                    Some(key) => {
                        self.handle_key(&key);
                        proof {
                            if pre.pasting {
                                lemma_appended_suffix(
                                    pre.os_input.events(),
                                    Seq::<OsEvent>::empty(),
                                );
                                assert(pre.os_input.events() + Seq::<OsEvent>::empty()
                                    =~= pre.os_input.events());
                                assert(self.os_input.events() == pre.os_input.events());
                            } else {
                                let resolved = pre.keybinds.actions_for(pre.mode, key);
                                lemma_no_mouse_in_trace_of(resolved);
                                lemma_appended_suffix(pre.os_input.events(), trace_of(resolved));
                                if any_terminal(resolved) {
                                    lemma_terminal_trace_contains_exit(resolved);
                                }
                            }
                        }
                    },
                    None => {},
                }
            },
            RawEvent::Mouse(raw) => {
                match MouseEvent::from_raw(raw) {
                    Some(decoded) => {
                        self.handle_mouse_event(&decoded);
                        proof {
                            lemma_no_mouse_in_mouse_trace(decoded);
                            lemma_appended_suffix(pre.os_input.events(), mouse_trace(decoded));
                        }
                    },
                    None => {},
                }
            },
            RawEvent::Resize(_, _) => {
                // Out of scope here: resizes belong to the external
                // layout/render collaborator.
            },
            RawEvent::PasteStart => {
                self.pasting = true;
                self.paste_buffer = Vec::new();
                proof {
                    assert(self.paste_buffer@ =~= Seq::<u8>::empty());
                }
            },
            RawEvent::PasteEnd => {
                self.pasting = false;
                let mut taken: Vec<u8> = Vec::new();
                core::mem::swap(&mut taken, &mut self.paste_buffer);
                proof {
                    assert(self.paste_buffer@ =~= Seq::<u8>::empty());
                }
                if self.mode == InputMode::Normal || self.mode == InputMode::Locked {
                    self.dispatch_action(Action::Write(taken));
                    proof {
                        let appended = dispatch_trace(ActionView::Write(pre.paste_buffer@));
                        lemma_no_mouse_in_dispatch_trace(ActionView::Write(pre.paste_buffer@));
                        lemma_appended_suffix(pre.os_input.events(), appended);
                    }
                } else {
                    proof {
                        assert(self.os_input.events() =~= pre.os_input.events() + Seq::<
                            OsEvent,
                        >::empty());
                    }
                }
            },
        }
        proof {
            assert(pre.os_input.events().len() <= self.os_input.events().len());
            assert(self.os_input.events().take(pre.os_input.events().len() as int)
                =~= pre.os_input.events());
            assert(no_mouse_enable(
                self.os_input.events().skip(pre.os_input.events().len() as int),
            ));
        }
    }

    /// Main input event loop: requests mouse reporting when configured, then
    /// reads, decodes and dispatches raw events in order until a terminal
    /// action was dispatched or the event source fails. A read failure sends
    /// the input-lost exit notification and stops; the loop never hangs on
    /// an unsupported event.
    ///
    /// The whole run is pinned down: the final trace is the entry trace, the
    /// mouse-mode request exactly when configured (once, first, and never
    /// again), then exactly the per-event steps of the raw events read, each
    /// step entered with the exit flag clear, closed either by the step that
    /// raised the flag or by the input-lost notification of a failed read.
    pub fn handle_input(&mut self)
        ensures
            final(self).should_exit,
            final(self).keybinds == old(self).keybinds,
            final(self).options == old(self).options,
            trace_extends(old(self).os_input.events(), final(self).os_input.events()),
            !old(self).options.disable_mouse_mode ==> final(self).os_input.events().len() > old(
                self,
            ).os_input.events().len() && final(self).os_input.events()[old(
                self,
            ).os_input.events().len() as int] == OsEvent::MouseModeEnabled && no_mouse_enable(
                final(self).os_input.events().skip(old(self).os_input.events().len() as int + 1),
            ),
            old(self).options.disable_mouse_mode ==> no_mouse_enable(
                final(self).os_input.events().skip(old(self).os_input.events().len() as int),
            ),
            !old(self).should_exit ==> contains_exit_notice(
                final(self).os_input.events().skip(old(self).os_input.events().len() as int),
            ),
            loop_outcome(old(self).keybinds, entry_state_of(*old(self)), loop_state(*final(self))),
    {
        let ghost pre_self = *self;
        let ghost entry_events = self.os_input.events();
        let ghost entry_keybinds = self.keybinds;
        let ghost entry_options = self.options;
        let ghost entry_flag = self.should_exit;
        let ghost entry_state = entry_state_of(pre_self);
        if !self.options.disable_mouse_mode {
            self.os_input.enable_mouse();
        }
        let ghost prefix = self.os_input.events();
        let ghost mut processed: Seq<RawEvent> = Seq::empty();
        proof {
            assert(prefix.take(prefix.len() as int) =~= prefix);
            assert(prefix.take(entry_events.len() as int) =~= entry_events);
            assert(entry_options.disable_mouse_mode ==> prefix == entry_events);
            assert(!entry_options.disable_mouse_mode ==> prefix.len() == entry_events.len() + 1);
            assert(loop_state(*self) =~= entry_state);
        }
        loop
            invariant_except_break
                steps_reach(entry_keybinds, entry_state, loop_state(*self), processed),
            invariant
                trace_extends(prefix, self.os_input.events()),
                prefix.len() >= entry_events.len(),
                prefix.take(entry_events.len() as int) == entry_events,
                self.keybinds == entry_keybinds,
                self.options == entry_options,
                no_mouse_enable(self.os_input.events().skip(prefix.len() as int)),
                self.should_exit ==> entry_flag || contains_exit_notice(
                    self.os_input.events().skip(prefix.len() as int),
                ),
            ensures
                self.should_exit,
                trace_extends(prefix, self.os_input.events()),
                self.keybinds == entry_keybinds,
                self.options == entry_options,
                no_mouse_enable(self.os_input.events().skip(prefix.len() as int)),
                entry_flag || contains_exit_notice(
                    self.os_input.events().skip(prefix.len() as int),
                ),
                loop_outcome(entry_keybinds, entry_state, loop_state(*self)),
            decreases self.os_input.events_remaining(),
        {
            if self.should_exit {
                proof {
                    assert(loop_outcome(entry_keybinds, entry_state, loop_state(*self)));
                }
                break;
            }
            let ghost pre_state = loop_state(*self);
            let ghost loop_events = self.os_input.events();
            match self.os_input.read_raw_event() {
                Ok(event) => {
                    proof {
                        assert(loop_state(*self) =~= pre_state);
                    }
                    self.process_raw_event(event);
                    proof {
                        lemma_trace_extends_trans(prefix, loop_events, self.os_input.events());
                        lemma_no_mouse_suffix_join(
                            prefix.len() as int,
                            loop_events,
                            self.os_input.events(),
                        );
                        if self.should_exit {
                            lemma_exit_suffix_widen(
                                loop_events.len() as int,
                                prefix.len() as int,
                                self.os_input.events(),
                            );
                        }
                        lemma_steps_reach_snoc(
                            entry_keybinds,
                            entry_state,
                            pre_state,
                            loop_state(*self),
                            processed,
                            event,
                        );
                        processed = processed.push(event);
                    }
                },
                Err(_) => {
                    // The raw event source is gone: surface the input-lost
                    // condition, notify the owning process, and stop.
                    self.os_input.send_client_instruction(
                        ClientInstruction::Exit(ExitReason::InputLost),
                    );
                    self.should_exit = true;
                    proof {
                        let closed = self.os_input.events();
                        assert(closed.take(loop_events.len() as int) =~= loop_events);
                        lemma_trace_extends_trans(prefix, loop_events, closed);
                        assert(closed.skip(loop_events.len() as int) =~= seq![
                            OsEvent::SentToClient(ClientInstruction::Exit(ExitReason::InputLost)),
                        ]);
                        lemma_no_mouse_suffix_join(prefix.len() as int, loop_events, closed);
                        assert(is_exit_notice(closed[loop_events.len() as int]));
                        assert(closed.skip(prefix.len() as int)[loop_events.len() as int
                            - prefix.len() as int] == closed[loop_events.len() as int]);
                        assert(loop_state(*self) =~= input_lost_outcome(pre_state));
                        assert(loop_outcome(entry_keybinds, entry_state, loop_state(*self)));
                    }
                    break;
                },
            }
        }
        proof {
            lemma_trace_extends_trans(entry_events, prefix, self.os_input.events());
            if !entry_options.disable_mouse_mode {
                assert(self.os_input.events().take(prefix.len() as int)[entry_events.len() as int]
                    == self.os_input.events()[entry_events.len() as int]);
                assert(self.os_input.events().skip(entry_events.len() as int + 1)
                    == self.os_input.events().skip(prefix.len() as int));
            }
            if !entry_flag {
                lemma_exit_suffix_widen(
                    prefix.len() as int,
                    entry_events.len() as int,
                    self.os_input.events(),
                );
            }
        }
    }
}

/// A trace that extends an extension of a prefix extends the prefix.
proof fn lemma_trace_extends_trans(first: Seq<OsEvent>, second: Seq<OsEvent>, third: Seq<OsEvent>)
    requires
        trace_extends(first, second),
        trace_extends(second, third),
    ensures
        trace_extends(first, third),
{
    assert(third.take(first.len() as int) =~= second.take(first.len() as int));
}

/// Law: dispatching a terminal action posts it to the server and then emits
/// the session-ending notification; together with the dispatcher's contract
/// on the exit flag, the loop stops right after such a dispatch.
pub proof fn lemma_terminal_dispatch_ends_session(action: ActionView)
    requires
        is_terminal_action(action),
    ensures
        dispatch_trace(action) == seq![
            OsEvent::SentToServer(ClientToServerMsgView::Action(action)),
            OsEvent::SentToClient(ClientInstruction::Exit(ExitReason::Normal)),
        ],
{
}

/// Law: dispatching a structural action engages the blocking gate, posts the
/// action, and observes the release, in that order and nothing else; at most
/// one structural action is ever in flight.
pub proof fn lemma_structural_dispatch_is_fenced(action: ActionView)
    requires
        is_structural_action(action),
    ensures
        dispatch_trace(action) == seq![
            OsEvent::GateEngaged,
            OsEvent::SentToServer(ClientToServerMsgView::Action(action)),
            OsEvent::GateReleaseObserved,
        ],
{
}

/// Entry point to the module: makes an [`InputHandler`] with the given
/// capability, table, options and initial mode, runs its event loop to
/// completion, and hands the terminated handler back. Every guarantee of
/// [`InputHandler::handle_input`] carries over, starting from a fresh
/// handler: initial mode `default_mode`, exit flag clear, not pasting.
pub fn input_loop<T: ClientOsApi>(
    os_input: T,
    keybinds: Keybinds,
    options: Options,
    default_mode: InputMode,
) -> (handler: InputHandler<T>)
    ensures
        handler.should_exit,
        handler.keybinds == keybinds,
        handler.options == options,
        trace_extends(os_input.events(), handler.os_input.events()),
        !options.disable_mouse_mode ==> handler.os_input.events().len() > os_input.events().len()
            && handler.os_input.events()[os_input.events().len() as int]
            == OsEvent::MouseModeEnabled && no_mouse_enable(
            handler.os_input.events().skip(os_input.events().len() as int + 1),
        ),
        options.disable_mouse_mode ==> no_mouse_enable(
            handler.os_input.events().skip(os_input.events().len() as int),
        ),
        contains_exit_notice(handler.os_input.events().skip(os_input.events().len() as int)),
        loop_outcome(
            keybinds,
            (LoopState {
                events: os_input.events() + (if options.disable_mouse_mode {
                    Seq::<OsEvent>::empty()
                } else {
                    seq![OsEvent::MouseModeEnabled]
                }),
                mode: default_mode,
                should_exit: false,
                pasting: false,
                paste_buffer: Seq::<u8>::empty(),
            }),
            loop_state(handler),
        ),
{
    let ghost entry_events = os_input.events();
    let mut handler = InputHandler::new(os_input, keybinds, options, default_mode);
    proof {
        assert(entry_state_of(handler) =~= (LoopState {
            events: entry_events + (if options.disable_mouse_mode {
                Seq::<OsEvent>::empty()
            } else {
                seq![OsEvent::MouseModeEnabled]
            }),
            mode: default_mode,
            should_exit: false,
            pasting: false,
            paste_buffer: Seq::<u8>::empty(),
        }));
    }
    handler.handle_input();
    handler
}

} // verus!

