//! The per-connection interception protocol.
//!
//! Each inbound connection runs one instance of this state machine: capture,
//! then suspend until the operator's decision arrives, then either drop the
//! request or forward it upstream and await the outcome.  The machine is a
//! pure function from state and event to the next state and the actions the
//! connection task must perform; the task itself merely executes the actions
//! (invoke the upstream connector, answer the original client, deliver the
//! outcome) and feeds the results back in.  The laws below pin the protocol:
//! at most one decision is acted on, the client is answered exactly once,
//! an outcome is produced exactly when the request was forwarded, and a
//! dropped request never reaches the upstream connector.

use vstd::prelude::*;

use crate::request::RequestInteraction;
use crate::response_waiter::{resp_content_eq, CopyableResponse};

verus! {

/// Where one connection stands in the interception handshake.
#[derive(Clone, Copy, PartialEq, Eq, Structural, Debug)]
pub enum ConnState {
    /// Captured and delivered to the registry; suspended until the operator
    /// decides.
    AwaitingDecision,
    /// Decided `Forward`; suspended until the upstream round trip finishes.
    AwaitingUpstream,
    /// The client has been answered; this connection's work is over.
    Done,
}

/// One thing that can happen to a suspended connection.
#[derive(Debug)]
pub enum ConnEvent {
    /// The operator's decision arrived.
    Decided(RequestInteraction),
    /// The decision channel's other end is gone (the operator UI exited);
    /// fall back to a best-effort answer, never a crash.
    DecisionChannelClosed,
    /// The upstream round trip finished, in success or in transport error.
    UpstreamDone(Result<CopyableResponse, String>),
}

/// What the connection task sends to the original client.
#[derive(Debug)]
pub enum ClientReply {
    /// A terminal empty response: the request was dropped, or there is
    /// nobody left to decide it.
    Empty,
    /// The origin's materialized response, passed through.
    Origin(CopyableResponse),
    /// A synthetic response describing a transport failure, so the client
    /// is never left hanging.
    TransportError(String),
}

/// What one protocol step asks the connection task to do.
#[derive(Debug)]
pub struct ConnStep {
    /// The state the connection moves to.
    pub state: ConnState,
    /// Invoke the upstream connector with the retained copy of the request.
    pub invoke_upstream: bool,
    /// Answer the original client with this reply.
    pub reply: Option<ClientReply>,
    /// Deliver this outcome for the request's id.
    pub outcome: Option<Result<CopyableResponse, String>>,
}

/// The state after one event.
pub open spec fn step_state(s: ConnState, e: ConnEvent) -> ConnState {
    match (s, e) {
        (ConnState::AwaitingDecision, ConnEvent::Decided(RequestInteraction::Forward)) => ConnState::AwaitingUpstream,
        (ConnState::AwaitingDecision, ConnEvent::Decided(RequestInteraction::Drop)) => ConnState::Done,
        (ConnState::AwaitingDecision, ConnEvent::DecisionChannelClosed) => ConnState::Done,
        (ConnState::AwaitingUpstream, ConnEvent::UpstreamDone(_)) => ConnState::Done,
        _ => s,
    }
}

/// How many upstream invocations one event causes: one exactly when a
/// pending decision says `Forward`.
pub open spec fn step_invokes(s: ConnState, e: ConnEvent) -> nat {
    if s == ConnState::AwaitingDecision && e matches ConnEvent::Decided(
        RequestInteraction::Forward,
    ) {
        1
    } else {
        0
    }
}

/// How many client replies one event causes: one exactly when the
/// connection finishes — by drop, by a closed decision channel, or by the
/// upstream round trip completing either way.
pub open spec fn step_replies(s: ConnState, e: ConnEvent) -> nat {
    match (s, e) {
        (ConnState::AwaitingDecision, ConnEvent::Decided(RequestInteraction::Drop)) => 1,
        (ConnState::AwaitingDecision, ConnEvent::DecisionChannelClosed) => 1,
        (ConnState::AwaitingUpstream, ConnEvent::UpstreamDone(_)) => 1,
        _ => 0,
    }
}

/// How many outcomes one event causes: one exactly when a forwarded
/// request's upstream round trip completes, in success or in error.
pub open spec fn step_outcomes(s: ConnState, e: ConnEvent) -> nat {
    if s == ConnState::AwaitingUpstream && e matches ConnEvent::UpstreamDone(_) {
        1
    } else {
        0
    }
}

/// How one protocol step relates state, event and the actions asked of the
/// connection task.  The counts above say when each action happens; the
/// payload cases say what each action carries: a drop and a closed channel
/// answer the client with an empty reply and produce no outcome; upstream
/// success answers with the origin's response and delivers a content-equal
/// copy as the outcome; upstream failure answers with a synthetic
/// transport-error reply and delivers the same description as an error
/// outcome.  Any event that does not fit the state changes nothing.
pub open spec fn conn_step_post(s: ConnState, e: ConnEvent, r: ConnStep) -> bool {
    &&& r.state == step_state(s, e)
    &&& r.invoke_upstream == (step_invokes(s, e) == 1)
    &&& (r.reply is Some <==> step_replies(s, e) == 1)
    &&& (r.outcome is Some <==> step_outcomes(s, e) == 1)
    &&& match (s, e) {
        (ConnState::AwaitingDecision, ConnEvent::Decided(RequestInteraction::Drop)) => r.reply
            == Some(ClientReply::Empty),
        (ConnState::AwaitingDecision, ConnEvent::DecisionChannelClosed) => r.reply == Some(
            ClientReply::Empty,
        ),
        (ConnState::AwaitingUpstream, ConnEvent::UpstreamDone(res)) => match res {
            Ok(resp) => {
                &&& (r.reply matches Some(ClientReply::Origin(c)) && resp_content_eq(c, resp))
                &&& (r.outcome matches Some(Ok(o)) && resp_content_eq(o, resp))
            },
            Err(msg) => {
                &&& (r.reply matches Some(ClientReply::TransportError(m)) && m@ == msg@)
                &&& (r.outcome matches Some(Err(m)) && m@ == msg@)
            },
        },
        _ => true,
    }
}

/// Run one step of the interception protocol: given where the connection
/// stands and what happened, say where it moves and what the task must do.
pub fn conn_step(s: ConnState, e: ConnEvent) -> (r: ConnStep)
    ensures
        conn_step_post(s, e, r),
{
    match (s, e) {
        (ConnState::AwaitingDecision, ConnEvent::Decided(RequestInteraction::Drop)) => ConnStep {
            state: ConnState::Done,
            invoke_upstream: false,
            reply: Some(ClientReply::Empty),
            outcome: None,
        },
        (ConnState::AwaitingDecision, ConnEvent::Decided(RequestInteraction::Forward)) => ConnStep {
            state: ConnState::AwaitingUpstream,
            invoke_upstream: true,
            reply: None,
            outcome: None,
        },
        (ConnState::AwaitingDecision, ConnEvent::DecisionChannelClosed) => ConnStep {
            state: ConnState::Done,
            invoke_upstream: false,
            reply: Some(ClientReply::Empty),
            outcome: None,
        },
        (ConnState::AwaitingUpstream, ConnEvent::UpstreamDone(res)) => {
            match res {
                Ok(resp) => {
                    let stored = resp.clone();
                    ConnStep {
                        state: ConnState::Done,
                        invoke_upstream: false,
                        reply: Some(ClientReply::Origin(resp)),
                        outcome: Some(Ok(stored)),
                    }
                },
                Err(msg) => {
                    let stored = msg.clone();
                    ConnStep {
                        state: ConnState::Done,
                        invoke_upstream: false,
                        reply: Some(ClientReply::TransportError(msg)),
                        outcome: Some(Err(stored)),
                    }
                },
            }
        },
        (s2, _) => ConnStep { state: s2, invoke_upstream: false, reply: None, outcome: None },
    }
}

/// The state after a whole trace of events.
pub open spec fn run_state(s: ConnState, tr: Seq<ConnEvent>) -> ConnState
    decreases tr.len(),
{
    if tr.len() == 0 {
        s
    } else {
        run_state(step_state(s, tr[0]), tr.drop_first())
    }
}

/// The upstream invocations a whole trace causes.
pub open spec fn run_invokes(s: ConnState, tr: Seq<ConnEvent>) -> nat
    decreases tr.len(),
{
    if tr.len() == 0 {
        0
    } else {
        (step_invokes(s, tr[0]) + run_invokes(step_state(s, tr[0]), tr.drop_first())) as nat
    }
}

/// The client replies a whole trace causes.
pub open spec fn run_replies(s: ConnState, tr: Seq<ConnEvent>) -> nat
    decreases tr.len(),
{
    if tr.len() == 0 {
        0
    } else {
        (step_replies(s, tr[0]) + run_replies(step_state(s, tr[0]), tr.drop_first())) as nat
    }
}

/// The outcomes a whole trace causes.
pub open spec fn run_outcomes(s: ConnState, tr: Seq<ConnEvent>) -> nat
    decreases tr.len(),
{
    if tr.len() == 0 {
        0
    } else {
        (step_outcomes(s, tr[0]) + run_outcomes(step_state(s, tr[0]), tr.drop_first())) as nat
    }
}

/// A finished connection does nothing more, whatever else arrives.
proof fn lemma_done_is_inert(tr: Seq<ConnEvent>)
    ensures
        run_state(ConnState::Done, tr) == ConnState::Done,
        run_invokes(ConnState::Done, tr) == 0,
        run_replies(ConnState::Done, tr) == 0,
        run_outcomes(ConnState::Done, tr) == 0,
    decreases tr.len(),
{
    if tr.len() > 0 {
        lemma_done_is_inert(tr.drop_first());
    }
}

/// From a forwarded (upstream-awaiting) connection, the rest of the run
/// invokes the upstream connector no further, and answers the client
/// exactly as often as it delivers an outcome: at most once, and exactly
/// once as soon as the upstream round trip completes.
proof fn lemma_awaiting_upstream_run(tr: Seq<ConnEvent>)
    ensures
        run_invokes(ConnState::AwaitingUpstream, tr) == 0,
        run_replies(ConnState::AwaitingUpstream, tr) == run_outcomes(
            ConnState::AwaitingUpstream,
            tr,
        ) <= 1,
    decreases tr.len(),
{
    if tr.len() > 0 {
        match tr[0] {
            ConnEvent::UpstreamDone(_) => {
                lemma_done_is_inert(tr.drop_first());
            },
            _ => {
                lemma_awaiting_upstream_run(tr.drop_first());
            },
        }
    }
}

/// From capture on, a connection invokes the upstream connector at most
/// once, answers its client at most once, and delivers at most one
/// outcome — and an outcome only ever follows an upstream invocation.
proof fn lemma_awaiting_decision_run(tr: Seq<ConnEvent>)
    ensures
        run_invokes(ConnState::AwaitingDecision, tr) <= 1,
        run_replies(ConnState::AwaitingDecision, tr) <= 1,
        run_outcomes(ConnState::AwaitingDecision, tr) <= run_invokes(
            ConnState::AwaitingDecision,
            tr,
        ),
    decreases tr.len(),
{
    if tr.len() > 0 {
        match tr[0] {
            ConnEvent::Decided(RequestInteraction::Forward) => {
                lemma_awaiting_upstream_run(tr.drop_first());
            },
            ConnEvent::Decided(RequestInteraction::Drop) => {
                lemma_done_is_inert(tr.drop_first());
            },
            ConnEvent::DecisionChannelClosed => {
                lemma_done_is_inert(tr.drop_first());
            },
            _ => {
                lemma_awaiting_decision_run(tr.drop_first());
            },
        }
    }
}

/// LAW: for any captured request, at most one decision is ever acted on,
/// the upstream connector is invoked at most once, the client is answered
/// at most once, and at most one outcome is ever produced — and an outcome
/// is produced exactly when the request was forwarded and its upstream
/// round trip completed: a run whose first decision is `Forward` and which
/// then sees the upstream result delivers exactly one outcome and exactly
/// one client reply, while a run with no `Forward` decision delivers none.
pub proof fn law_one_decision_one_outcome(tr: Seq<ConnEvent>)
    ensures
        run_invokes(ConnState::AwaitingDecision, tr) <= 1,
        run_replies(ConnState::AwaitingDecision, tr) <= 1,
        run_outcomes(ConnState::AwaitingDecision, tr) <= run_invokes(
            ConnState::AwaitingDecision,
            tr,
        ),
        (tr.len() >= 2 && tr[0] == ConnEvent::Decided(RequestInteraction::Forward)
            && tr[1] matches ConnEvent::UpstreamDone(_)) ==> run_outcomes(
            ConnState::AwaitingDecision,
            tr,
        ) == 1 && run_replies(ConnState::AwaitingDecision, tr) == 1,
{
    lemma_awaiting_decision_run(tr);
    if tr.len() >= 2 && tr[0] == ConnEvent::Decided(RequestInteraction::Forward) && tr[1] matches
        ConnEvent::UpstreamDone(_) {
        let tr1 = tr.drop_first();
        assert(tr1[0] == tr[1]);
        assert(step_state(ConnState::AwaitingDecision, tr[0]) == ConnState::AwaitingUpstream);
        assert(run_outcomes(ConnState::AwaitingDecision, tr) == step_outcomes(
            ConnState::AwaitingDecision,
            tr[0],
        ) + run_outcomes(ConnState::AwaitingUpstream, tr1));
        assert(run_outcomes(ConnState::AwaitingUpstream, tr1) == step_outcomes(
            ConnState::AwaitingUpstream,
            tr1[0],
        ) + run_outcomes(ConnState::Done, tr1.drop_first()));
        assert(run_replies(ConnState::AwaitingDecision, tr) == step_replies(
            ConnState::AwaitingDecision,
            tr[0],
        ) + run_replies(ConnState::AwaitingUpstream, tr1));
        assert(run_replies(ConnState::AwaitingUpstream, tr1) == step_replies(
            ConnState::AwaitingUpstream,
            tr1[0],
        ) + run_replies(ConnState::Done, tr1.drop_first()));
        lemma_done_is_inert(tr1.drop_first());
    }
}

/// LAW: a dropped request never reaches the upstream connector and never
/// produces an outcome; its client is answered exactly once, immediately.
pub proof fn law_drop_never_forwards(tr: Seq<ConnEvent>)
    requires
        tr.len() >= 1,
        tr[0] == ConnEvent::Decided(RequestInteraction::Drop),
    ensures
        run_invokes(ConnState::AwaitingDecision, tr) == 0,
        run_outcomes(ConnState::AwaitingDecision, tr) == 0,
        run_replies(ConnState::AwaitingDecision, tr) == 1,
{
    lemma_done_is_inert(tr.drop_first());
}

/// LAW: a transport failure on forward still answers the original client
/// exactly once — with a synthetic reply rather than a hang — and delivers
/// exactly one outcome, an error, toward the registry.
pub proof fn law_transport_failure_still_answers(tr: Seq<ConnEvent>, msg: String)
    requires
        tr.len() >= 2,
        tr[0] == ConnEvent::Decided(RequestInteraction::Forward),
        tr[1] == ConnEvent::UpstreamDone(Err::<CopyableResponse, String>(msg)),
    ensures
        run_replies(ConnState::AwaitingDecision, tr) == 1,
        run_outcomes(ConnState::AwaitingDecision, tr) == 1,
        run_invokes(ConnState::AwaitingDecision, tr) == 1,
{
    let tr1 = tr.drop_first();
    assert(tr1[0] == tr[1]);
    assert(step_state(ConnState::AwaitingDecision, tr[0]) == ConnState::AwaitingUpstream);
    assert(run_outcomes(ConnState::AwaitingDecision, tr) == step_outcomes(
        ConnState::AwaitingDecision,
        tr[0],
    ) + run_outcomes(ConnState::AwaitingUpstream, tr1));
    assert(run_outcomes(ConnState::AwaitingUpstream, tr1) == step_outcomes(
        ConnState::AwaitingUpstream,
        tr1[0],
    ) + run_outcomes(ConnState::Done, tr1.drop_first()));
    assert(run_replies(ConnState::AwaitingDecision, tr) == step_replies(
        ConnState::AwaitingDecision,
        tr[0],
    ) + run_replies(ConnState::AwaitingUpstream, tr1));
    assert(run_replies(ConnState::AwaitingUpstream, tr1) == step_replies(
        ConnState::AwaitingUpstream,
        tr1[0],
    ) + run_replies(ConnState::Done, tr1.drop_first()));
    assert(run_invokes(ConnState::AwaitingDecision, tr) == step_invokes(
        ConnState::AwaitingDecision,
        tr[0],
    ) + run_invokes(ConnState::AwaitingUpstream, tr1));
    lemma_awaiting_upstream_run(tr1);
    lemma_done_is_inert(tr1.drop_first());
}

} // verus!
