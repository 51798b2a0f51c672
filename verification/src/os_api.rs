//! The OS and IPC capability at the pipeline's boundary.
//!
//! The terminal driver, the server channel, the client-instruction channel,
//! the mouse-hold repeater and the blocking gate live outside this library.
//! [`ClientOsApi`] abstracts them as one injected capability whose visible
//! history is a trace of [`OsEvent`]s; every contract of the pipeline is
//! stated over that trace. A deterministic in-memory adapter, [`MockOsApi`],
//! implements the trait for tests and proofs.

use vstd::prelude::*;

use crate::actions::{Action, ActionView, ClientInstruction, ClientToServerMsg, ClientToServerMsgView};
use crate::raw::{RawEvent, ReadError};

verus! {

/// One observable effect at the OS/IPC boundary.
pub enum OsEvent {
    /// A tagged action message was posted to the server.
    SentToServer(ClientToServerMsgView),
    /// A notification was sent to the owning client process.
    SentToClient(ClientInstruction),
    /// Mouse reporting was requested from the terminal driver.
    MouseModeEnabled,
    /// The background repeater was started (or refreshed) for an action.
    RepeaterStarted(ActionView),
    /// The background repeater was cancelled.
    RepeaterCancelled,
    /// The blocking gate was engaged ahead of a structural action.
    GateEngaged,
    /// The acknowledgment releasing the blocking gate was observed.
    GateReleaseObserved,
}

/// The capability the input pipeline is given at startup: blocking reads of
/// raw events, one-way sends, the mouse-mode toggle, the repeater, and the
/// blocking gate's engage/await-release handshake.
///
/// `events` is the trace of effects so far; `events_remaining` is how many
/// raw events the source will still deliver before it fails the read (every
/// terminal session delivers finitely many before closing).
pub trait ClientOsApi: Sized {
    /// The trace of observable effects so far, oldest first. An adapter
    /// that does not say otherwise has the empty trace.
    open spec fn events(&self) -> Seq<OsEvent> {
        Seq::empty()
    }

    /// How many raw events the source will still deliver. An adapter that
    /// does not say otherwise delivers none.
    open spec fn events_remaining(&self) -> nat {
        0
    }

    /// Blocks until the terminal driver yields one raw event, or fails once
    /// the source is exhausted. Reading has no observable effect.
    fn read_raw_event(&mut self) -> (event: Result<RawEvent, ReadError>)
        ensures
            final(self).events() == old(self).events(),
            event is Ok ==> final(self).events_remaining() < old(self).events_remaining(),
    ;

    /// Posts one tagged action message to the server, fire-and-forget.
    fn send_to_server(&mut self, msg: ClientToServerMsg)
        ensures
            final(self).events() == old(self).events().push(OsEvent::SentToServer(msg@)),
            final(self).events_remaining() == old(self).events_remaining(),
    ;

    /// Sends a one-way notification to the owning client process.
    fn send_client_instruction(&mut self, instruction: ClientInstruction)
        ensures
            final(self).events() == old(self).events().push(OsEvent::SentToClient(instruction)),
            final(self).events_remaining() == old(self).events_remaining(),
    ;

    /// Requests mouse reporting from the terminal driver.
    fn enable_mouse(&mut self)
        ensures
            final(self).events() == old(self).events().push(OsEvent::MouseModeEnabled),
            final(self).events_remaining() == old(self).events_remaining(),
    ;

    /// Starts, or refreshes, the background repeater that re-dispatches the
    /// action at a fixed interval until cancelled.
    fn start_action_repeater(&mut self, action: Action)
        ensures
            final(self).events() == old(self).events().push(OsEvent::RepeaterStarted(action@)),
            final(self).events_remaining() == old(self).events_remaining(),
    ;

    /// Cancels any active background repeater; no repeats occur afterwards.
    fn cancel_action_repeater(&mut self)
        ensures
            final(self).events() == old(self).events().push(OsEvent::RepeaterCancelled),
            final(self).events_remaining() == old(self).events_remaining(),
    ;

    /// Engages the blocking gate: the caller will block until acknowledged.
    fn gate_engage(&mut self)
        ensures
            final(self).events() == old(self).events().push(OsEvent::GateEngaged),
            final(self).events_remaining() == old(self).events_remaining(),
    ;

    /// Blocks until the acknowledgment that releases the blocking gate arrives.
    fn gate_wait_release(&mut self)
        ensures
            final(self).events() == old(self).events().push(OsEvent::GateReleaseObserved),
            final(self).events_remaining() == old(self).events_remaining(),
    ;
}

/// The executable record of one boundary effect, kept by [`MockOsApi`].
#[derive(Clone, Debug, PartialEq, Eq)]
pub enum OsEventRec {
    SentToServer(ClientToServerMsg),
    SentToClient(ClientInstruction),
    MouseModeEnabled,
    RepeaterStarted(Action),
    RepeaterCancelled,
    GateEngaged,
    GateReleaseObserved,
}

impl View for OsEventRec {
    type V = OsEvent;

    open spec fn view(&self) -> OsEvent {
        match self {
            OsEventRec::SentToServer(msg) => OsEvent::SentToServer(msg@),
            OsEventRec::SentToClient(instruction) => OsEvent::SentToClient(*instruction),
            OsEventRec::MouseModeEnabled => OsEvent::MouseModeEnabled,
            OsEventRec::RepeaterStarted(action) => OsEvent::RepeaterStarted(action@),
            OsEventRec::RepeaterCancelled => OsEvent::RepeaterCancelled,
            OsEventRec::GateEngaged => OsEvent::GateEngaged,
            OsEventRec::GateReleaseObserved => OsEvent::GateReleaseObserved,
        }
    }
}

/// A deterministic in-memory adapter: raw events come from a queue given up
/// front, effects are recorded in order, structural sends are acknowledged at once,
/// and the read fails once the queue is exhausted.
pub struct MockOsApi {
    /// Every boundary effect so far, oldest first.
    pub recorded: Vec<OsEventRec>,
    /// The raw events still to be delivered, front first.
    pub incoming: Vec<RawEvent>,
    /// How many of `incoming` were already delivered.
    pub cursor: usize,
}

impl MockOsApi {
    /// The recorded trace, as the model sees it.
    pub open spec fn trace(&self) -> Seq<OsEvent> {
        self.recorded@.map_values(|record: OsEventRec| record@)
    }

    /// Makes an adapter that will deliver the given raw events in order.
    pub fn new(incoming: Vec<RawEvent>) -> (mock: MockOsApi)
        ensures
            mock.events() == Seq::<OsEvent>::empty(),
            mock.events_remaining() == incoming@.len(),
            mock.incoming@ == incoming@,
            mock.recorded@.len() == 0,
    {
        let mock = MockOsApi { recorded: Vec::new(), incoming, cursor: 0 };
        proof {
            assert(mock.trace() =~= Seq::<OsEvent>::empty());
        }
        mock
    }
}

impl ClientOsApi for MockOsApi {
    open spec fn events(&self) -> Seq<OsEvent> {
        self.trace()
    }

    open spec fn events_remaining(&self) -> nat {
        if self.cursor <= self.incoming@.len() {
            (self.incoming@.len() - self.cursor) as nat
        } else {
            0
        }
    }

    fn read_raw_event(&mut self) -> (event: Result<RawEvent, ReadError>) {
        if self.cursor < self.incoming.len() {
            let delivered = self.incoming[self.cursor];
            self.cursor = self.cursor + 1;
            Ok(delivered)
        } else {
            Err(ReadError::InputLost)
        }
    }

    fn send_to_server(&mut self, msg: ClientToServerMsg) {
        let ghost pre = *self;
        let ghost record_view = OsEvent::SentToServer(msg@);
        self.recorded.push(OsEventRec::SentToServer(msg));
        proof {
            assert(self.trace() =~= pre.trace().push(record_view));
        }
    }

    fn send_client_instruction(&mut self, instruction: ClientInstruction) {
        let ghost pre = *self;
        self.recorded.push(OsEventRec::SentToClient(instruction));
        proof {
            assert(self.trace() =~= pre.trace().push(OsEvent::SentToClient(instruction)));
        }
    }

    fn enable_mouse(&mut self) {
        let ghost pre = *self;
        self.recorded.push(OsEventRec::MouseModeEnabled);
        proof {
            assert(self.trace() =~= pre.trace().push(OsEvent::MouseModeEnabled));
        }
    }

    fn start_action_repeater(&mut self, action: Action) {
        let ghost pre = *self;
        let ghost record_view = OsEvent::RepeaterStarted(action@);
        self.recorded.push(OsEventRec::RepeaterStarted(action));
        proof {
            assert(self.trace() =~= pre.trace().push(record_view));
        }
    }

    fn cancel_action_repeater(&mut self) {
        let ghost pre = *self;
        self.recorded.push(OsEventRec::RepeaterCancelled);
        proof {
            assert(self.trace() =~= pre.trace().push(OsEvent::RepeaterCancelled));
        }
    }

    fn gate_engage(&mut self) {
        let ghost pre = *self;
        self.recorded.push(OsEventRec::GateEngaged);
        proof {
            assert(self.trace() =~= pre.trace().push(OsEvent::GateEngaged));
        }
    }

    fn gate_wait_release(&mut self) {
        let ghost pre = *self;
        self.recorded.push(OsEventRec::GateReleaseObserved);
        proof {
            assert(self.trace() =~= pre.trace().push(OsEvent::GateReleaseObserved));
        }
    }
}

} // verus!
