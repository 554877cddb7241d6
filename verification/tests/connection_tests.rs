use dual_responder::connection::ConnectionEvent;
use dual_responder::connection::HandlerStep;
use dual_responder::connection::handle_event;
use dual_responder::connection::handle_requests;
use dual_responder::policy::Method;
use dual_responder::policy::Request;
use dual_responder::policy::ResponsePolicy;

const FIRST: &str = "\u{1f980} Hello OpenShift! \u{1f980}\n";

fn policy() -> ResponsePolicy {
    ResponsePolicy::new(FIRST.to_string())
}

fn get_index() -> Request {
    Request { method: Method::Get, path: "/".to_string() }
}

#[test]
fn request_event_is_answered() {
    let step = handle_event(&policy(), ConnectionEvent::Arrived(get_index()));
    match step {
        HandlerStep::Reply(resp) => {
            assert_eq!(resp.status, 200);
            assert_eq!(resp.body, FIRST);
        }
        HandlerStep::Stop => panic!("a request must be answered"),
    }
}

#[test]
fn closing_events_stop_the_connection() {
    assert!(matches!(handle_event(&policy(), ConnectionEvent::Closed), HandlerStep::Stop));
    assert!(matches!(handle_event(&policy(), ConnectionEvent::Malformed), HandlerStep::Stop));
    assert!(matches!(
        handle_event(&policy(), ConnectionEvent::TransportError),
        HandlerStep::Stop
    ));
}

#[test]
fn repeated_identical_requests_get_identical_responses() {
    let requests = vec![get_index(), get_index(), get_index()];
    let responses = handle_requests(&policy(), &requests);
    assert_eq!(responses.len(), 3);
    for resp in &responses {
        assert_eq!(resp.status, 200);
        assert_eq!(resp.body, FIRST);
        assert_eq!(resp.content_length, Some(FIRST.len() as u64));
        assert!(resp.content_type_plaintext);
    }
}

#[test]
fn responses_come_in_request_order() {
    let requests = vec![
        get_index(),
        Request { method: Method::Get, path: "/missing".to_string() },
        get_index(),
        Request { method: Method::Other, path: "/".to_string() },
    ];
    let responses = handle_requests(&policy(), &requests);
    assert_eq!(responses.len(), 4);
    assert_eq!(responses[0].status, 200);
    assert_eq!(responses[1].status, 404);
    assert_eq!(responses[2].status, 200);
    assert_eq!(responses[3].status, 404);
    assert_eq!(responses[1].body, "");
    assert_eq!(responses[2].body, FIRST);
}
