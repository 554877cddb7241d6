//! Driving one accepted connection: read a request, answer it, repeat.
//!
//! The transport itself lives outside the library. What arrives on a
//! connection is handed in as an event: a parsed request, or the reasons to
//! stop (the peer closed the connection, the next request did not parse, or
//! the transport failed). One event yields one step: reply and carry on, or
//! stop this connection — and only this connection.

use vstd::prelude::*;

verus! {

use crate::policy::Method;
use crate::policy::Request;
use crate::policy::Response;
use crate::policy::ResponsePolicy;
use crate::policy::policy_model;

/// What the transport delivered next on one connection.
pub enum ConnectionEvent {
    /// A well-formed request arrived.
    Arrived(Request),
    /// The peer closed the connection.
    Closed,
    /// The next piece of input did not parse as a request.
    Malformed,
    /// Reading or writing failed at the transport.
    TransportError,
}

/// What the handler does with one event.
pub enum HandlerStep {
    /// Write this response and keep the connection open.
    Reply(Response),
    /// Close this connection; nothing is propagated further.
    Stop,
}

/// Take one step on one connection: a request is answered by the policy,
/// everything else ends the connection.
pub fn handle_event(policy: &ResponsePolicy, event: ConnectionEvent) -> (step: HandlerStep)
    requires
        policy.wf(),
    ensures
        match event {
            ConnectionEvent::Arrived(req) => match step {
                HandlerStep::Reply(resp) => resp.model() == policy_model(
                    policy.payload@,
                    req.method,
                    req.path@,
                ),
                HandlerStep::Stop => false,
            },
            _ => step matches HandlerStep::Stop,
        },
{
    match event {
        ConnectionEvent::Arrived(req) => HandlerStep::Reply(policy.respond(&req)),
        ConnectionEvent::Closed => HandlerStep::Stop,
        ConnectionEvent::Malformed => HandlerStep::Stop,
        ConnectionEvent::TransportError => HandlerStep::Stop,
    }
}

/// Answer a whole exchange on one open connection: the responses come in
/// request order, one per request, and the i-th response depends on nothing
/// but the payload and the i-th request.
pub fn handle_requests(policy: &ResponsePolicy, requests: &Vec<Request>) -> (responses: Vec<
    Response,
>)
    requires
        policy.wf(),
    ensures
        responses@.len() == requests@.len(),
        forall|i: int|
            0 <= i < requests@.len() ==> (#[trigger] responses@[i]).model() == policy_model(
                policy.payload@,
                requests@[i].method,
                requests@[i].path@,
            ),
{
    let mut responses: Vec<Response> = Vec::new();
    let mut idx: usize = 0;
    while idx < requests.len()
        invariant
            idx <= requests@.len(),
            responses@.len() == idx,
            policy.wf(),
            forall|i: int|
                0 <= i < idx ==> (#[trigger] responses@[i]).model() == policy_model(
                    policy.payload@,
                    requests@[i].method,
                    requests@[i].path@,
                ),
        decreases requests@.len() - idx,
    {
        let resp = policy.respond(&requests[idx]);
        responses.push(resp);
        idx += 1;
    }
    responses
}

/// Law: requests on one connection do not leak state into one another — the
/// same request, wherever it stands in the exchange, gets the same answer.
pub proof fn lemma_repeated_requests_identical(
    payload: Seq<char>,
    requests: Seq<(Method, Seq<char>)>,
    i: int,
    j: int,
)
    requires
        0 <= i < requests.len(),
        0 <= j < requests.len(),
        requests[i] == requests[j],
    ensures
        policy_model(payload, requests[i].0, requests[i].1) == policy_model(
            payload,
            requests[j].0,
            requests[j].1,
        ),
{
}

/// Law: what one connection is answered does not depend on the traffic around
/// it — two exchanges that agree on their i-th request agree on its answer,
/// whatever else either exchange carries.
pub proof fn lemma_connection_isolation(
    payload: Seq<char>,
    one: Seq<(Method, Seq<char>)>,
    other: Seq<(Method, Seq<char>)>,
    i: int,
)
    requires
        0 <= i < one.len(),
        0 <= i < other.len(),
        one[i] == other[i],
    ensures
        policy_model(payload, one[i].0, one[i].1) == policy_model(
            payload,
            other[i].0,
            other[i].1,
        ),
{
}

} // verus!
