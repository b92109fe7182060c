//! Captured requests and the one-shot decision handoff.
//!
//! A `Request` is a fully materialized, duplicable copy of one inbound HTTP
//! request, owned by the registry (or by a tab) independently of the live
//! connection.  Its decision capability is a move-only value that is taken
//! exactly once: after it has been consumed, any further attempt to decide
//! is a no-op that never panics.

use vstd::prelude::*;

use crate::response_waiter::{resp_content_eq, RequestResponse};

verus! {

/// The HTTP protocol version of a captured request or response, held as a
/// plain value.
#[derive(Clone, Copy, PartialEq, Eq, Structural, Debug)]
pub enum HttpVersion {
    Http09,
    Http10,
    Http11,
    Http2,
    Http3,
}

/// One header line: a name and its raw value bytes.  Header lists keep
/// insertion order.
#[derive(Debug)]
pub struct Header {
    pub name: String,
    pub value: Vec<u8>,
}

impl Clone for Header {
    /// Cloning a header copies the name and the value bytes.
    fn clone(&self) -> (r: Self)
        ensures
            r.name@ == self.name@,
            r.value@ == self.value@,
    {
        Header { name: self.name.clone(), value: self.value.clone() }
    }
}

/// Two header lists hold the same names and values in the same order.
pub open spec fn headers_content_eq(a: Seq<Header>, b: Seq<Header>) -> bool {
    &&& a.len() == b.len()
    &&& forall|i: int|
        0 <= i < a.len() ==> #[trigger] a[i].name@ == b[i].name@ && a[i].value@ == b[i].value@
}

/// Clones a header list; the copy is content-equal to the original.
pub fn clone_headers(hs: &Vec<Header>) -> (r: Vec<Header>)
    ensures
        headers_content_eq(hs@, r@),
{
    let mut r: Vec<Header> = Vec::new();
    let mut i: usize = 0;
    while i < hs.len()
        invariant
            i <= hs@.len(),
            r@.len() == i,
            forall|j: int|
                0 <= j < i ==> #[trigger] r@[j].name@ == hs@[j].name@ && r@[j].value@
                    == hs@[j].value@,
        decreases hs@.len() - i,
    {
        r.push(hs[i].clone());
        i = i + 1;
    }
    r
}

/// The operator's decision for a captured request: forward it to the real
/// origin, or drop it.
#[derive(Clone, Copy, PartialEq, Eq, Structural, Debug)]
pub enum RequestInteraction {
    Drop,
    Forward,
}

/// The one-shot capability to decide a captured request.  Owning it is the
/// right to deliver exactly one decision to the suspended connection task;
/// it is moved out of the request when the decision is sent and can never be
/// duplicated.
#[derive(Debug)]
pub struct InteractionCapability {
    pub id: u128,
}

/// Returned when a request was decided `Forward`: the caller must wire the
/// upstream round trip for this id and hand its outcome back through the
/// response waiter.
#[derive(Debug)]
pub struct ForwardTicket {
    pub id: u128,
}

/// Where a captured request stands in its lifecycle.  No transition is
/// reversible.
#[derive(Clone, Copy, PartialEq, Eq, Structural, Debug)]
pub enum RequestStatus {
    /// Captured; the decision capability has not been consumed.
    Pending,
    /// Decided `Drop`; terminal.
    Dropped,
    /// Decided `Forward`; the upstream round trip has not completed.
    AwaitingOutcome,
    /// An outcome (success or error) has been stored.
    Completed,
}

/// A fully materialized captured request together with its lifecycle state:
/// identity, request line, headers, body bytes, the decision capability
/// (present until consumed), and the stored outcome, if any.
#[derive(Debug)]
pub struct Request {
    pub id: u128,
    /// `None` once the decision has been sent, or on a detached tab copy.
    pub interaction_tx: Option<InteractionCapability>,
    pub method: String,
    pub uri: String,
    pub version: HttpVersion,
    pub headers: Vec<Header>,
    pub body: Vec<u8>,
    pub status: RequestStatus,
    /// `Some` exactly when `status` is `Completed`.
    pub resp: Option<RequestResponse>,
}

impl Request {
    /// Well-formedness: the capability, if present, belongs to this request
    /// and only a pending request holds one; an outcome is stored exactly
    /// when the request is completed, and it carries this request's id.
    pub open spec fn wf(self) -> bool {
        &&& (self.interaction_tx matches Some(cap) ==> cap.id == self.id && self.status
            == RequestStatus::Pending)
        &&& (self.resp is Some <==> self.status == RequestStatus::Completed)
        &&& (self.resp matches Some(r) ==> r.id == self.id)
    }

    /// The captured content (identity, request line, headers, body) of `a`
    /// and `b` is equal; says nothing about capability, status or outcome.
    pub open spec fn content_eq(a: Request, b: Request) -> bool {
        &&& a.id == b.id
        &&& a.method@ == b.method@
        &&& a.uri@ == b.uri@
        &&& a.version == b.version
        &&& headers_content_eq(a.headers@, b.headers@)
        &&& a.body@ == b.body@
    }

    /// How `send_interaction` relates the request before the call, the
    /// request after it, and the returned ticket.  The decision capability
    /// is consumed at most once: with the capability absent the call is a
    /// no-op, otherwise the capability is taken and the status moves to
    /// `Dropped` or `AwaitingOutcome` according to the decision.
    pub open spec fn send_interaction_post(
        pre: Request,
        post: Request,
        interaction: RequestInteraction,
        r: Option<ForwardTicket>,
    ) -> bool {
        &&& Request::content_eq(pre, post)
        &&& post.resp == pre.resp
        &&& (pre.interaction_tx is None ==> post == pre && r is None)
        &&& (pre.interaction_tx is Some ==> {
            &&& post.interaction_tx is None
            &&& match interaction {
                RequestInteraction::Drop => post.status == RequestStatus::Dropped && r is None,
                RequestInteraction::Forward => post.status == RequestStatus::AwaitingOutcome && r
                    == Some((ForwardTicket { id: pre.id })),
            }
        })
    }

    /// Consume the decision capability, if it is still present, and record
    /// the decision.  Returns a ticket exactly when the request was newly
    /// decided `Forward`; deciding an already-decided request (or a detached
    /// copy) is a no-op.
    pub fn send_interaction(&mut self, interaction: RequestInteraction) -> (r: Option<
        ForwardTicket,
    >)
        requires
            old(self).wf(),
        ensures
            final(self).wf(),
            Request::send_interaction_post(*old(self), *final(self), interaction, r),
    {
        let tx = self.interaction_tx.take();
        match tx {
            None => None,
            Some(_cap) => {
                match interaction {
                    RequestInteraction::Drop => {
                        self.status = RequestStatus::Dropped;
                        None
                    },
                    RequestInteraction::Forward => {
                        self.status = RequestStatus::AwaitingOutcome;
                        Some(ForwardTicket { id: self.id })
                    },
                }
            },
        }
    }

    /// How `store_response` relates the request before and after the call:
    /// the outcome is stored exactly when the request was awaiting one and
    /// the outcome carries its id; otherwise nothing changes.  An outcome
    /// can therefore exist only for a request that was decided `Forward`.
    pub open spec fn store_response_post(pre: Request, post: Request, resp: RequestResponse) -> bool {
        if pre.status == RequestStatus::AwaitingOutcome && resp.id == pre.id {
            &&& Request::content_eq(pre, post)
            &&& post.interaction_tx == pre.interaction_tx
            &&& post.status == RequestStatus::Completed
            &&& post.resp == Some(resp)
        } else {
            post == pre
        }
    }

    /// Store the outcome of this request's upstream round trip.  A no-op
    /// unless the request is awaiting an outcome and the outcome carries its
    /// id; storing never panics.
    pub fn store_response(&mut self, resp: RequestResponse)
        requires
            old(self).wf(),
        ensures
            final(self).wf(),
            Request::store_response_post(*old(self), *final(self), resp),
    {
        if matches!(self.status, RequestStatus::AwaitingOutcome) && resp.id == self.id {
            self.status = RequestStatus::Completed;
            self.resp = Some(resp);
        }
    }

    /// Duplicate this request into `(store, separate)`: `store` keeps the
    /// decision capability, the status and the stored outcome; `separate`
    /// is an independent content-equal copy with no capability.  The two
    /// results are distinct owned values; mutating one cannot be observed
    /// through the other.
    pub fn get_tab_copy(self) -> (r: (Request, Request))
        requires
            self.wf(),
        ensures
            r.0.wf(),
            r.1.wf(),
            Request::content_eq(self, r.0),
            Request::content_eq(self, r.1),
            r.0.interaction_tx == self.interaction_tx,
            r.0.status == self.status,
            r.0.resp == self.resp,
            r.1.interaction_tx is None,
            r.1.status == (if self.status == RequestStatus::Pending {
                RequestStatus::Pending
            } else {
                self.status
            }),
            match (self.resp, r.1.resp) {
                (Some(a), Some(b)) => b.id == a.id && match (a.response, b.response) {
                    (Ok(ra), Ok(rb)) => resp_content_eq(ra, rb),
                    (Err(ea), Err(eb)) => ea@ == eb@,
                    _ => false,
                },
                (None, None) => true,
                _ => false,
            },
    {
        let Request { id, interaction_tx, method, uri, version, headers, body, status, resp } =
            self;
        let method2 = method.clone();
        let uri2 = uri.clone();
        let headers2 = clone_headers(&headers);
        let body2 = body.clone();
        let resp2 = match &resp {
            None => None,
            Some(rr) => Some(rr.clone()),
        };
        (
            Request {
                id,
                interaction_tx,
                method,
                uri,
                version,
                headers,
                body,
                status,
                resp,
            },
            Request {
                id,
                interaction_tx: None,
                method: method2,
                uri: uri2,
                version,
                headers: headers2,
                body: body2,
                status,
                resp: resp2,
            },
        )
    }
}

/// LAW: a request's decision capability is consumed at most once.  The first
/// successful decision removes the capability, and every later attempt to
/// decide — with any decision — leaves the request unchanged and returns no
/// ticket, so at most one decision is ever delivered per captured request.
pub proof fn law_decision_consumed_at_most_once(
    r0: Request,
    r1: Request,
    r2: Request,
    i1: RequestInteraction,
    i2: RequestInteraction,
    t1: Option<ForwardTicket>,
    t2: Option<ForwardTicket>,
)
    requires
        Request::send_interaction_post(r0, r1, i1, t1),
        Request::send_interaction_post(r1, r2, i2, t2),
        r0.interaction_tx is Some,
    ensures
        r1.interaction_tx is None,
        r2 == r1,
        t2 is None,
{
}

/// LAW: an outcome exists only for a request that was decided `Forward`.
/// Storing an outcome changes a request only when it is awaiting one, and a
/// request awaits an outcome only after its capability was consumed by a
/// `Forward` decision; a request decided `Drop` can never come to hold an
/// outcome.
pub proof fn law_outcome_only_after_forward(
    r0: Request,
    r1: Request,
    r2: Request,
    i: RequestInteraction,
    t: Option<ForwardTicket>,
    o: RequestResponse,
)
    requires
        r0.wf(),
        r0.status == RequestStatus::Pending,
        Request::send_interaction_post(r0, r1, i, t),
        Request::store_response_post(r1, r2, o),
        i == RequestInteraction::Drop,
        r0.interaction_tx is Some,
    ensures
        r1.status == RequestStatus::Dropped,
        r2 == r1,
        r2.resp == r0.resp,
{
}

/// LAW: a request decided `Forward` takes exactly one outcome.  Once the
/// capability is consumed by a `Forward` decision the request awaits its
/// outcome; the first outcome delivered under its id is stored and
/// completes it, and any outcome delivered after that leaves it untouched.
pub proof fn law_forwarded_request_takes_one_outcome(
    r0: Request,
    r1: Request,
    r2: Request,
    r3: Request,
    t: Option<ForwardTicket>,
    o1: RequestResponse,
    o2: RequestResponse,
)
    requires
        r0.wf(),
        r0.interaction_tx is Some,
        Request::send_interaction_post(r0, r1, RequestInteraction::Forward, t),
        Request::store_response_post(r1, r2, o1),
        Request::store_response_post(r2, r3, o2),
        o1.id == r0.id,
    ensures
        t == Some((ForwardTicket { id: r0.id })),
        r2.status == RequestStatus::Completed,
        r2.resp == Some(o1),
        r3 == r2,
{
}

/// Relies on uuid's `Uuid::new_v4` (and `Uuid::as_u128`): a freshly
/// generated random version-4 UUID, returned as its 128-bit value.  The
/// result is random, so nothing is promised of it; all registry logic is
/// verified for every id value.
#[verifier::external_body]
pub(crate) fn fresh_id() -> u128 {
    uuid::Uuid::new_v4().as_u128()
}

} // verus!
