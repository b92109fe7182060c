//! The per-connection interception protocol.

use prxs::proxy::{conn_step, ClientReply, ConnEvent, ConnState};
use prxs::request::{HttpVersion, RequestInteraction};
use prxs::response_waiter::CopyableResponse;

fn origin_resp(body: &[u8]) -> CopyableResponse {
    CopyableResponse {
        status: 200,
        version: HttpVersion::Http11,
        headers: Vec::new(),
        body: body.to_vec(),
        decoded: false,
    }
}

#[test]
fn a_dropped_request_never_reaches_upstream_and_answers_the_client() {
    let step = conn_step(
        ConnState::AwaitingDecision,
        ConnEvent::Decided(RequestInteraction::Drop),
    );
    assert_eq!(step.state, ConnState::Done);
    assert!(!step.invoke_upstream);
    assert!(matches!(step.reply, Some(ClientReply::Empty)));
    assert!(step.outcome.is_none());
}

#[test]
fn a_forwarded_request_invokes_upstream_exactly_once() {
    let step = conn_step(
        ConnState::AwaitingDecision,
        ConnEvent::Decided(RequestInteraction::Forward),
    );
    assert_eq!(step.state, ConnState::AwaitingUpstream);
    assert!(step.invoke_upstream);
    assert!(step.reply.is_none());
    assert!(step.outcome.is_none());
    // the upstream result then finishes the connection without re-invoking
    let done = conn_step(step.state, ConnEvent::UpstreamDone(Ok(origin_resp(b"hi"))));
    assert_eq!(done.state, ConnState::Done);
    assert!(!done.invoke_upstream);
}

#[test]
fn upstream_success_answers_the_client_and_delivers_the_outcome() {
    let step = conn_step(
        ConnState::AwaitingUpstream,
        ConnEvent::UpstreamDone(Ok(origin_resp(b"origin body"))),
    );
    assert_eq!(step.state, ConnState::Done);
    match step.reply {
        Some(ClientReply::Origin(resp)) => assert_eq!(resp.body, b"origin body".to_vec()),
        other => panic!("expected the origin's response for the client: {other:?}"),
    }
    match step.outcome {
        Some(Ok(stored)) => assert_eq!(stored.body, b"origin body".to_vec()),
        other => panic!("expected a success outcome: {other:?}"),
    }
}

#[test]
fn transport_failure_still_answers_the_client_and_stores_one_error() {
    let step = conn_step(
        ConnState::AwaitingUpstream,
        ConnEvent::UpstreamDone(Err("dns failure".to_string())),
    );
    assert_eq!(step.state, ConnState::Done);
    // the client is never left hanging: it gets a synthetic reply
    match step.reply {
        Some(ClientReply::TransportError(m)) => assert_eq!(m, "dns failure"),
        other => panic!("expected a synthetic transport-error reply: {other:?}"),
    }
    // and exactly one error outcome heads for the registry
    match step.outcome {
        Some(Err(m)) => assert_eq!(m, "dns failure"),
        other => panic!("expected an error outcome: {other:?}"),
    }
}

#[test]
fn a_closed_decision_channel_falls_back_to_a_best_effort_reply() {
    let step = conn_step(ConnState::AwaitingDecision, ConnEvent::DecisionChannelClosed);
    assert_eq!(step.state, ConnState::Done);
    assert!(!step.invoke_upstream);
    assert!(matches!(step.reply, Some(ClientReply::Empty)));
    assert!(step.outcome.is_none());
}

#[test]
fn a_finished_connection_ignores_late_events() {
    let step = conn_step(ConnState::Done, ConnEvent::UpstreamDone(Ok(origin_resp(b"late"))));
    assert_eq!(step.state, ConnState::Done);
    assert!(!step.invoke_upstream);
    assert!(step.reply.is_none());
    assert!(step.outcome.is_none());
    let step = conn_step(
        ConnState::Done,
        ConnEvent::Decided(RequestInteraction::Forward),
    );
    assert!(!step.invoke_upstream);
    assert!(step.outcome.is_none());
}

#[test]
fn an_upstream_result_cannot_arrive_before_a_decision() {
    let step = conn_step(
        ConnState::AwaitingDecision,
        ConnEvent::UpstreamDone(Ok(origin_resp(b"early"))),
    );
    assert_eq!(step.state, ConnState::AwaitingDecision);
    assert!(!step.invoke_upstream);
    assert!(step.reply.is_none());
    assert!(step.outcome.is_none());
}
