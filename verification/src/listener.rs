//! One listening loop: bind a socket, then accept connections forever.
//!
//! The socket work happens outside the library; what it reports comes back in
//! as events. The loop is a three-state machine: it starts `Binding`, serves
//! in `Accepting`, and ends in `Terminated`. A failure to bind is fatal to the
//! whole service; a failure to accept ends only this loop. Every accepted
//! connection gets its own handler at once — the loop never waits on one.

use vstd::prelude::*;

verus! {

/// Where one listening loop stands.
#[derive(Clone, Copy, PartialEq, Eq, Structural, Debug)]
pub enum ListenerPhase {
    /// The socket is not bound yet.
    Binding,
    /// The socket is bound; the loop accepts connections.
    Accepting,
    /// The loop has ended and is never restarted.
    Terminated,
}

/// What the socket reported to one listening loop.
#[derive(Clone, Copy, PartialEq, Eq, Structural, Debug)]
pub enum ListenerEvent {
    /// The socket was bound to the configured port.
    BindSucceeded,
    /// The port could not be bound.
    BindFailed,
    /// A connection was accepted.
    Accepted,
    /// Accepting failed at the socket.
    AcceptFailed,
}

/// What the loop does in reaction to an event.
#[derive(Clone, Copy, PartialEq, Eq, Structural, Debug)]
pub enum ListenerAction {
    /// Start accepting connections on the bound socket.
    BeginAccepting,
    /// Tell the supervisor the service cannot start.
    AbortStartup,
    /// Start an independent handler for the accepted connection,
    /// without waiting on it, and accept the next connection.
    SpawnHandler,
    /// Log the accept failure and end this loop, and only this loop.
    LogAndStop,
}

/// Which events a loop in a given phase can receive: bind outcomes while
/// binding, accept outcomes while accepting, nothing once terminated.
pub open spec fn listener_event_fits(phase: ListenerPhase, event: ListenerEvent) -> bool {
    match event {
        ListenerEvent::BindSucceeded => phase == ListenerPhase::Binding,
        ListenerEvent::BindFailed => phase == ListenerPhase::Binding,
        ListenerEvent::Accepted => phase == ListenerPhase::Accepting,
        ListenerEvent::AcceptFailed => phase == ListenerPhase::Accepting,
    }
}

/// The loop's transition relation: next phase and reaction, per event.
pub open spec fn spec_listener_step(phase: ListenerPhase, event: ListenerEvent) -> (
    ListenerPhase,
    ListenerAction,
) {
    match event {
        ListenerEvent::BindSucceeded => (ListenerPhase::Accepting, ListenerAction::BeginAccepting),
        ListenerEvent::BindFailed => (ListenerPhase::Terminated, ListenerAction::AbortStartup),
        ListenerEvent::Accepted => (ListenerPhase::Accepting, ListenerAction::SpawnHandler),
        ListenerEvent::AcceptFailed => (ListenerPhase::Terminated, ListenerAction::LogAndStop),
    }
}

/// One listening loop: the port it is configured for, the payload it serves,
/// and where it stands. Port and payload never change once set.
pub struct ListenerState {
    pub port: u16,
    pub payload: String,
    pub phase: ListenerPhase,
}

impl ListenerState {
    /// A fresh loop for one (port, payload) pair, about to bind.
    pub fn new(port: u16, payload: String) -> (l: ListenerState)
        ensures
            l.port == port,
            l.payload == payload,
            l.phase == ListenerPhase::Binding,
    {
        ListenerState { port, payload, phase: ListenerPhase::Binding }
    }

    /// React to one socket event: the phase moves as the transition relation
    /// says, and the loop keeps its port and its payload.
    pub fn step(&mut self, event: ListenerEvent) -> (action: ListenerAction)
        requires
            listener_event_fits(old(self).phase, event),
        ensures
            (final(self).phase, action) == spec_listener_step(old(self).phase, event),
            final(self).port == old(self).port,
            final(self).payload == old(self).payload,
    {
        match event {
            ListenerEvent::BindSucceeded => {
                self.phase = ListenerPhase::Accepting;
                ListenerAction::BeginAccepting
            },
            ListenerEvent::BindFailed => {
                self.phase = ListenerPhase::Terminated;
                ListenerAction::AbortStartup
            },
            ListenerEvent::Accepted => {
                self.phase = ListenerPhase::Accepting;
                ListenerAction::SpawnHandler
            },
            ListenerEvent::AcceptFailed => {
                self.phase = ListenerPhase::Terminated;
                ListenerAction::LogAndStop
            },
        }
    }
}

} // verus!
