use dual_responder::config::PortError;
use dual_responder::listener::ListenerAction;
use dual_responder::listener::ListenerEvent;
use dual_responder::listener::ListenerPhase;
use dual_responder::listener::ListenerState;
use dual_responder::policy::Method;
use dual_responder::policy::Request;
use dual_responder::policy::ResponsePolicy;
use dual_responder::supervisor::ListenerId;
use dual_responder::supervisor::ProcessDirective;
use dual_responder::supervisor::StartupDecision;
use dual_responder::supervisor::SupervisorState;
use dual_responder::supervisor::build_config;
use dual_responder::supervisor::first_payload;
use dual_responder::supervisor::plan_startup;
use dual_responder::supervisor::second_payload;

const FIRST: &str = "\u{1f980} Hello OpenShift! \u{1f980}\n";
const SECOND: &str = "\u{1f980} This service is powered by Rust! \u{1f980}\n";

#[test]
fn defaults_give_both_ports_and_payloads() {
    let c = build_config(None, None).unwrap();
    assert_eq!(c.first_port, 8080);
    assert_eq!(c.second_port, 8888);
    assert_eq!(c.first_payload, FIRST);
    assert_eq!(c.second_payload, SECOND);
}

#[test]
fn payload_texts_are_distinct() {
    assert_ne!(first_payload(), second_payload());
}

#[test]
fn each_port_serves_its_own_payload() {
    let c = build_config(Some("8080"), Some("8888")).unwrap();
    let req = Request { method: Method::Get, path: "/".to_string() };
    let first = ResponsePolicy::new(c.first_payload).respond(&req);
    let second = ResponsePolicy::new(c.second_payload).respond(&req);
    assert_eq!(first.body, FIRST);
    assert_eq!(second.body, SECOND);
    assert_ne!(first.body, second.body);
}

#[test]
fn bad_first_port_fails_configuration() {
    match build_config(Some("notanumber"), None) {
        Err(e) => assert_eq!(e, PortError::Malformed),
        Ok(_) => panic!("a malformed port value must fail configuration"),
    }
}

#[test]
fn bad_second_port_fails_configuration() {
    match build_config(None, Some("70000")) {
        Err(e) => assert_eq!(e, PortError::TooLarge),
        Ok(_) => panic!("an out-of-range port value must fail configuration"),
    }
}

#[test]
fn startup_needs_both_listeners_bound() {
    assert_eq!(plan_startup(true, true), StartupDecision::Start);
    assert_eq!(plan_startup(true, false), StartupDecision::FailStartup);
    assert_eq!(plan_startup(false, true), StartupDecision::FailStartup);
    assert_eq!(plan_startup(false, false), StartupDecision::FailStartup);
}

#[test]
fn listener_walks_its_phases() {
    let mut l = ListenerState::new(8080, FIRST.to_string());
    assert_eq!(l.phase, ListenerPhase::Binding);
    assert_eq!(l.step(ListenerEvent::BindSucceeded), ListenerAction::BeginAccepting);
    assert_eq!(l.phase, ListenerPhase::Accepting);
    assert_eq!(l.step(ListenerEvent::Accepted), ListenerAction::SpawnHandler);
    assert_eq!(l.phase, ListenerPhase::Accepting);
    assert_eq!(l.step(ListenerEvent::AcceptFailed), ListenerAction::LogAndStop);
    assert_eq!(l.phase, ListenerPhase::Terminated);
    assert_eq!(l.payload, FIRST);
    assert_eq!(l.port, 8080);
}

#[test]
fn bind_failure_aborts_startup() {
    let c = build_config(None, None).unwrap();
    let mut s = SupervisorState::new(c);
    assert_eq!(s.react(ListenerId::First, ListenerEvent::BindSucceeded), ProcessDirective::Continue);
    assert_eq!(s.react(ListenerId::Second, ListenerEvent::BindFailed), ProcessDirective::AbortStartup);
    assert_eq!(s.second.phase, ListenerPhase::Terminated);
}

#[test]
fn one_loop_ending_leaves_the_sibling_alone() {
    let c = build_config(None, None).unwrap();
    let mut s = SupervisorState::new(c);
    s.react(ListenerId::First, ListenerEvent::BindSucceeded);
    s.react(ListenerId::Second, ListenerEvent::BindSucceeded);
    let d = s.react(ListenerId::First, ListenerEvent::AcceptFailed);
    assert_eq!(d, ProcessDirective::Continue);
    assert_eq!(s.first.phase, ListenerPhase::Terminated);
    assert_eq!(s.second.phase, ListenerPhase::Accepting);
    assert_eq!(s.second.payload, SECOND);
}
