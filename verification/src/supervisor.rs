//! The service supervisor: both listening loops, owned together.
//!
//! At startup it resolves the two ports, binds one payload to each, and
//! demands that both loops bind — one port alone is no service. Once running,
//! the loops are on their own: a loop that terminates is neither restarted nor
//! allowed to bring its sibling down.

use vstd::prelude::*;

verus! {

use crate::config::PortError;
use crate::config::FIRST_PORT_DEFAULT;
use crate::config::SECOND_PORT_DEFAULT;
use crate::config::opt_view;
use crate::config::resolve_port;
use crate::config::spec_resolve_port;
use crate::listener::ListenerAction;
use crate::listener::ListenerEvent;
use crate::listener::ListenerState;
use crate::listener::spec_listener_step;
use crate::listener::listener_event_fits;

/// The text served on the first port.
pub open spec fn first_payload_text() -> Seq<char> {
    "🦀 Hello OpenShift! 🦀\n"@
}

/// The text served on the second port.
pub open spec fn second_payload_text() -> Seq<char> {
    "🦀 This service is powered by Rust! 🦀\n"@
}

/// The payload of the first listener.
pub fn first_payload() -> (r: String)
    ensures
        r@ == first_payload_text(),
{
    "🦀 Hello OpenShift! 🦀\n".to_owned()
}

/// The payload of the second listener.
pub fn second_payload() -> (r: String)
    ensures
        r@ == second_payload_text(),
{
    "🦀 This service is powered by Rust! 🦀\n".to_owned()
}

/// Law: the two listeners serve distinct texts.
pub proof fn lemma_payloads_distinct()
    ensures
        first_payload_text() != second_payload_text(),
{
    reveal_strlit("🦀 Hello OpenShift! 🦀\n");
    reveal_strlit("🦀 This service is powered by Rust! 🦀\n");
    assert(first_payload_text().len() != second_payload_text().len());
}

/// Everything the service needs to start: a port and a payload per listener.
pub struct ServiceConfig {
    pub first_port: u16,
    pub second_port: u16,
    pub first_payload: String,
    pub second_payload: String,
}

/// Resolve the whole configuration from the two environment values. Succeeds
/// exactly when both port values resolve; a defect in the first value is
/// reported before the second value is looked at.
pub fn build_config(first_env: Option<&str>, second_env: Option<&str>) -> (r: Result<
    ServiceConfig,
    PortError,
>)
    ensures
        match r {
            Ok(c) => {
                &&& spec_resolve_port(opt_view(first_env), FIRST_PORT_DEFAULT) == Ok::<
                    u16,
                    PortError,
                >(c.first_port)
                &&& spec_resolve_port(opt_view(second_env), SECOND_PORT_DEFAULT) == Ok::<
                    u16,
                    PortError,
                >(c.second_port)
                &&& c.first_payload@ == first_payload_text()
                &&& c.second_payload@ == second_payload_text()
            },
            Err(e) => match spec_resolve_port(opt_view(first_env), FIRST_PORT_DEFAULT) {
                Err(first_defect) => e == first_defect,
                Ok(_) => spec_resolve_port(opt_view(second_env), SECOND_PORT_DEFAULT) == Err::<
                    u16,
                    PortError,
                >(e),
            },
        },
{
    let first_port = match resolve_port(first_env, FIRST_PORT_DEFAULT) {
        Ok(p) => p,
        Err(e) => {
            return Err(e);
        },
    };
    let second_port = match resolve_port(second_env, SECOND_PORT_DEFAULT) {
        Ok(p) => p,
        Err(e) => {
            return Err(e);
        },
    };
    Ok(
        ServiceConfig {
            first_port,
            second_port,
            first_payload: first_payload(),
            second_payload: second_payload(),
        },
    )
}

/// Which of the two listening loops is meant.
#[derive(Clone, Copy, PartialEq, Eq, Structural, Debug)]
pub enum ListenerId {
    First,
    Second,
}

/// Whether the process may come up.
#[derive(Clone, Copy, PartialEq, Eq, Structural, Debug)]
pub enum StartupDecision {
    /// Both loops bound: run the service.
    Start,
    /// At least one loop could not bind: the whole process fails to start.
    FailStartup,
}

/// What the process does after a running loop saw an event.
#[derive(Clone, Copy, PartialEq, Eq, Structural, Debug)]
pub enum ProcessDirective {
    /// Keep the process alive; the sibling loop goes on serving.
    Continue,
    /// Give up starting the service.
    AbortStartup,
}

/// The supervisor may start the service exactly when both loops bound their
/// port: there is no partial, single-port service.
pub fn plan_startup(first_bound: bool, second_bound: bool) -> (d: StartupDecision)
    ensures
        d == StartupDecision::Start <==> first_bound && second_bound,
{
    if first_bound && second_bound {
        StartupDecision::Start
    } else {
        StartupDecision::FailStartup
    }
}

/// Both listening loops, each bound to its own port and payload.
pub struct SupervisorState {
    pub first: ListenerState,
    pub second: ListenerState,
}

impl SupervisorState {
    /// Set up the two loops the configuration calls for: each gets its own
    /// port and its own payload, and both start out binding.
    pub fn new(config: ServiceConfig) -> (s: SupervisorState)
        ensures
            s.first.port == config.first_port,
            s.first.payload == config.first_payload,
            s.first.phase is Binding,
            s.second.port == config.second_port,
            s.second.payload == config.second_payload,
            s.second.phase is Binding,
    {
        SupervisorState {
            first: ListenerState::new(config.first_port, config.first_payload),
            second: ListenerState::new(config.second_port, config.second_payload),
        }
    }

    /// The loop named by `which`.
    pub open spec fn loop_of(&self, which: ListenerId) -> ListenerState {
        match which {
            ListenerId::First => self.first,
            ListenerId::Second => self.second,
        }
    }

    /// The other loop.
    pub open spec fn sibling_of(&self, which: ListenerId) -> ListenerState {
        match which {
            ListenerId::First => self.second,
            ListenerId::Second => self.first,
        }
    }

    /// Pass one socket event to the loop it belongs to. The named loop steps
    /// as its transition relation says; its sibling is left entirely alone;
    /// the process is asked to abort only for a failure to bind — a loop that
    /// terminates later neither restarts nor brings the service down.
    pub fn react(&mut self, which: ListenerId, event: ListenerEvent) -> (directive:
        ProcessDirective)
        requires
            listener_event_fits(old(self).loop_of(which).phase, event),
        ensures
            final(self).loop_of(which).phase == spec_listener_step(
                old(self).loop_of(which).phase,
                event,
            ).0,
            final(self).loop_of(which).port == old(self).loop_of(which).port,
            final(self).loop_of(which).payload == old(self).loop_of(which).payload,
            final(self).sibling_of(which) == old(self).sibling_of(which),
            directive == ProcessDirective::AbortStartup <==> event == ListenerEvent::BindFailed,
    {
        let action = match which {
            ListenerId::First => self.first.step(event),
            ListenerId::Second => self.second.step(event),
        };
        match action {
            ListenerAction::AbortStartup => ProcessDirective::AbortStartup,
            ListenerAction::BeginAccepting => ProcessDirective::Continue,
            ListenerAction::SpawnHandler => ProcessDirective::Continue,
            ListenerAction::LogAndStop => ProcessDirective::Continue,
        }
    }
}

} // verus!
