//! Captured responses, the stored-body decode transform, and the dynamic
//! response waiter.
//!
//! The waiter presents an unbounded, dynamically growing set of "forward and
//! await outcome" operations as one pollable source.  Each poll scans the
//! pending operations in submission order and yields at most one completed
//! outcome; submitting to an idle waiter raises the stored wake-up so the new
//! operation is guaranteed to be polled without an unrelated external event.

use vstd::multiset::Multiset;
use vstd::prelude::*;

use crate::request::{clone_headers, headers_content_eq, Header, HttpVersion};

verus! {

/// Names the result of gunzip decompression: `Some(d)` with the decoded
/// bytes where `data` is a well-formed gzip stream, `None` where it is not.
/// Decoding is a function of the input bytes alone.
pub uninterp spec fn gunzip_of(data: Seq<u8>) -> Option<Seq<u8>>;

/// Relies on flate2's `read::GzDecoder` (driven by std's `Read::read_to_end`):
/// decompressing a gzip stream is a function of the input bytes alone, named
/// `gunzip_of`; a stream that is not well-formed gzip is reported as an error.
#[verifier::external_body]
fn gunzip(data: &Vec<u8>) -> (r: Option<Vec<u8>>)
    ensures
        match r {
            Some(v) => gunzip_of(data@) == Some(v@),
            None => gunzip_of(data@) is None,
        },
{
    let mut decoder = flate2::read::GzDecoder::new(data.as_slice());
    let mut v = Vec::new();
    match std::io::Read::read_to_end(&mut decoder, &mut v) {
        Ok(_) => Some(v),
        Err(_) => None,
    }
}

/// A fully materialized captured response: status code, protocol version,
/// header list in insertion order, and the complete body bytes.  The body is
/// materialized so it can be read repeatedly by both the live connection and
/// the operator's stored display.  `decoded` records that the stored body
/// has already been decompressed in place; it makes the operator's decode
/// command idempotent.
#[derive(Debug)]
pub struct CopyableResponse {
    pub status: u16,
    pub version: HttpVersion,
    pub headers: Vec<Header>,
    pub body: Vec<u8>,
    pub decoded: bool,
}

/// Two captured responses hold the same status, version, headers, body and
/// decode mark.
pub open spec fn resp_content_eq(a: CopyableResponse, b: CopyableResponse) -> bool {
    &&& a.status == b.status
    &&& a.version == b.version
    &&& headers_content_eq(a.headers@, b.headers@)
    &&& a.body@ == b.body@
    &&& a.decoded == b.decoded
}

impl Clone for CopyableResponse {
    /// Cloning a captured response copies all of its content.
    fn clone(&self) -> (r: Self)
        ensures
            resp_content_eq(*self, r),
    {
        CopyableResponse {
            status: self.status,
            version: self.version,
            headers: clone_headers(&self.headers),
            body: self.body.clone(),
            decoded: self.decoded,
        }
    }
}

impl CopyableResponse {
    /// How `try_gunzip` relates the response before the call, the response
    /// after it, and the reported success.  A response already decoded is
    /// left exactly as it is; otherwise the body is replaced by its decoded
    /// bytes and marked, or — where the body is not a gzip stream — nothing
    /// changes and the failure is reported.
    pub open spec fn try_gunzip_post(pre: CopyableResponse, post: CopyableResponse, ok: bool) -> bool {
        if pre.decoded {
            post == pre && ok
        } else {
            match gunzip_of(pre.body@) {
                Some(d) => {
                    &&& post.status == pre.status
                    &&& post.version == pre.version
                    &&& post.headers == pre.headers
                    &&& post.body@ == d
                    &&& post.decoded
                    &&& ok
                },
                None => post == pre && !ok,
            }
        }
    }

    /// Decompress the stored body in place, once.  Returns whether the body
    /// is now (or already was) decoded; on a body that is not a gzip stream
    /// the response is left unchanged.  Invoking this on already-decoded
    /// data is a guarded no-op, so the transform is idempotent and can never
    /// corrupt the stored bytes.
    pub fn try_gunzip(&mut self) -> (ok: bool)
        ensures
            CopyableResponse::try_gunzip_post(*old(self), *final(self), ok),
    {
        if self.decoded {
            return true;
        }
        match gunzip(&self.body) {
            Some(v) => {
                self.body = v;
                self.decoded = true;
                true
            },
            None => false,
        }
    }
}

/// LAW: the stored-body decode transform is idempotent.  Applying
/// `try_gunzip` a second time, whatever the first application did, leaves
/// the response exactly as the first application left it.
pub proof fn law_gunzip_idempotent(
    r0: CopyableResponse,
    r1: CopyableResponse,
    r2: CopyableResponse,
    ok1: bool,
    ok2: bool,
)
    requires
        CopyableResponse::try_gunzip_post(r0, r1, ok1),
        CopyableResponse::try_gunzip_post(r1, r2, ok2),
    ensures
        r2 == r1,
{
}

/// The outcome of one forwarded request's upstream round trip: the id of the
/// captured request it belongs to, and either the materialized origin
/// response or a transport-error description.
#[derive(Debug)]
pub struct RequestResponse {
    pub id: u128,
    pub response: Result<CopyableResponse, String>,
}

/// Two outcomes carry the same id and the same payload content.
pub open spec fn outcome_content_eq(a: RequestResponse, b: RequestResponse) -> bool {
    &&& a.id == b.id
    &&& match (a.response, b.response) {
        (Ok(ra), Ok(rb)) => resp_content_eq(ra, rb),
        (Err(ea), Err(eb)) => ea@ == eb@,
        _ => false,
    }
}

impl Clone for RequestResponse {
    /// Cloning an outcome copies the id and the payload content.
    fn clone(&self) -> (r: Self)
        ensures
            outcome_content_eq(*self, r),
    {
        RequestResponse {
            id: self.id,
            response: match &self.response {
                Ok(resp) => Ok(resp.clone()),
                Err(e) => Err(e.clone()),
            },
        }
    }
}

/// The least index whose entry is ready (`Some`), if any entry is.
pub open spec fn first_ready_index<T>(c: Seq<Option<T>>) -> Option<int>
    decreases c.len(),
{
    if c.len() == 0 {
        None
    } else if c[0] is Some {
        Some(0)
    } else {
        match first_ready_index(c.drop_first()) {
            None => None,
            Some(i) => Some(i + 1),
        }
    }
}

/// What `first_ready_index` returns: either no entry is ready, or the least
/// ready index.
pub proof fn lemma_first_ready_index<T>(c: Seq<Option<T>>)
    ensures
        match first_ready_index(c) {
            None => forall|j: int| 0 <= j < c.len() ==> c[j] is None,
            Some(i) => {
                &&& 0 <= i < c.len()
                &&& c[i] is Some
                &&& forall|j: int| 0 <= j < i ==> c[j] is None
            },
        },
    decreases c.len(),
{
    if c.len() > 0 && c[0] is None {
        lemma_first_ready_index(c.drop_first());
        assert forall|j: int| 0 <= j < c.len() && first_ready_index(c) is None implies c[j]
            is None by {
            if j > 0 {
                assert(c.drop_first()[j - 1] is None);
            }
        }
        match first_ready_index(c) {
            None => {},
            Some(i) => {
                assert(c.drop_first()[i - 1] is Some);
                assert forall|j: int| 0 <= j < i implies c[j] is None by {
                    if j > 0 {
                        assert(c.drop_first()[j - 1] is None);
                    }
                }
            },
        }
    }
}

/// The dynamic multiplexer over all outstanding forward operations.  It
/// records, in submission order, the id of every operation whose outcome has
/// not yet been yielded, and whether the event loop has a wake-up registered
/// with it.  The operations' futures live with the caller, which polls them
/// and hands the results of one polling round to `poll_next`.
#[derive(Debug)]
pub struct ResponseWaiter {
    /// Ids of submitted operations not yet yielded, in submission order.
    pub pending: Vec<u128>,
    /// Whether a wake-up is registered: set by every poll, and the condition
    /// under which `submit` must raise the wake-up itself.
    pub waker_armed: bool,
}

impl Default for ResponseWaiter {
    /// A fresh waiter has no pending operations and no registered wake-up.
    fn default() -> (w: ResponseWaiter)
        ensures
            w.pending@ == Seq::<u128>::empty(),
            !w.waker_armed,
    {
        ResponseWaiter { pending: Vec::new(), waker_armed: false }
    }
}

impl ResponseWaiter {
    /// Register one additional pending operation.  May be called at any
    /// time.  Returns whether the caller must raise the registered wake-up:
    /// exactly when the pending set was empty, so that a waiter that had
    /// gone idle is guaranteed to be polled again without an unrelated
    /// external event.
    pub fn submit(&mut self, id: u128) -> (wake: bool)
        ensures
            final(self).pending@ == old(self).pending@.push(id),
            final(self).waker_armed == old(self).waker_armed,
            wake == (old(self).pending@.len() == 0 && old(self).waker_armed),
    {
        let repoll = self.pending.len() == 0;
        self.pending.push(id);
        repoll && self.waker_armed
    }

    /// How `poll_next` relates the waiter before the call, the results of
    /// polling each pending operation (parallel to `pending`, in submission
    /// order), the waiter after the call, and the yielded outcome.  If at
    /// least one operation has completed, exactly the earliest-submitted
    /// completed one is yielded and removed; the rest stay pending in order.
    /// If none has, nothing is yielded and a wake-up is registered.
    pub open spec fn poll_next_post(
        pre: ResponseWaiter,
        completions: Seq<Option<Result<CopyableResponse, String>>>,
        post: ResponseWaiter,
        r: Option<RequestResponse>,
    ) -> bool {
        &&& post.waker_armed
        &&& match first_ready_index(completions) {
            None => r is None && post.pending@ == pre.pending@,
            Some(i) => {
                &&& post.pending@ == pre.pending@.remove(i)
                &&& r matches Some(rr)
                &&& rr.id == pre.pending@[i]
                &&& completions[i] == Some(rr.response)
            },
        }
    }

    /// One polling round: `completions[k]` is the result the caller got from
    /// polling the `k`-th pending operation, in submission order.  Yields
    /// the outcome of the earliest-submitted completed operation and removes
    /// it from the pending set, or yields nothing and registers a wake-up.
    /// No outcome is ever yielded before its operation completed, and when
    /// several complete in the same round the earliest-submitted one is
    /// yielded first; the others are re-offered unchanged on later polls.
    #[verifier::loop_isolation(false)]
    pub fn poll_next(&mut self, completions: Vec<Option<Result<CopyableResponse, String>>>) -> (r:
        Option<RequestResponse>)
        requires
            completions@.len() == old(self).pending@.len(),
        ensures
            ResponseWaiter::poll_next_post(*old(self), completions@, *final(self), r),
    {
        self.waker_armed = true;
        proof {
            lemma_first_ready_index(completions@);
        }
        let mut completions = completions;
        let n = completions.len();
        let mut k: usize = 0;
        while k < n && completions[k].is_none()
            invariant
                completions@.len() == n,
                k <= n,
                forall|j: int| 0 <= j < k ==> completions@[j] is None,
            decreases n - k,
        {
            k = k + 1;
        }
        if k < n {
            proof {
                match first_ready_index(completions@) {
                    None => {
                        assert(completions@[k as int] is None);
                    },
                    Some(i) => {
                        if i < k {
                            assert(completions@[i] is None);
                        }
                        if i > k {
                            assert(completions@[k as int] is None);
                        }
                    },
                }
            }
            let c = completions.remove(k);
            let id = self.pending.remove(k);
            if let Some(response) = c {
                Some(RequestResponse { id, response })
            } else {
                proof {
                    assert(false);
                }
                None
            }
        } else {
            proof {
                match first_ready_index(completions@) {
                    None => {},
                    Some(i) => {
                        assert(completions@[i] is None);
                    },
                }
            }
            None
        }
    }
}

/// LAW: polls conserve the pending set.  One polling round either leaves the
/// pending ids exactly as they were (when nothing was ready) or removes
/// precisely the single yielded id, so over any run every submitted
/// operation is yielded at most once, and each yield carries the id of an
/// operation that had actually completed.
pub proof fn law_poll_conserves_pending(
    pre: ResponseWaiter,
    completions: Seq<Option<Result<CopyableResponse, String>>>,
    post: ResponseWaiter,
    r: Option<RequestResponse>,
)
    requires
        completions.len() == pre.pending@.len(),
        ResponseWaiter::poll_next_post(pre, completions, post, r),
    ensures
        match r {
            None => post.pending@ == pre.pending@,
            Some(rr) => {
                &&& pre.pending@.to_multiset() == post.pending@.to_multiset().insert(rr.id)
                &&& exists|i: int|
                    {
                        &&& 0 <= i < pre.pending@.len()
                        &&& pre.pending@[i] == rr.id
                        &&& #[trigger] completions[i] == Some(rr.response)
                    }
            },
        },
{
    lemma_first_ready_index(completions);
    match r {
        None => {},
        Some(rr) => {
            let i = first_ready_index(completions)->Some_0;
            pre.pending@.to_multiset_ensures();
            let m = pre.pending@.to_multiset();
            assert(post.pending@.to_multiset() =~= m.remove(rr.id));
            assert(pre.pending@.contains(rr.id));
            assert(m.count(rr.id) > 0);
            assert(m.remove(rr.id).insert(rr.id) =~= m);
            assert(pre.pending@[i] == rr.id && completions[i] == Some(rr.response));
        },
    }
}

/// LAW: when every pending operation has completed, successive polls yield
/// them in ascending submission order: the first poll yields the
/// earliest-submitted operation and leaves the rest pending in order.
pub proof fn law_ready_polls_yield_in_submission_order(
    pre: ResponseWaiter,
    completions: Seq<Option<Result<CopyableResponse, String>>>,
    post: ResponseWaiter,
    r: Option<RequestResponse>,
)
    requires
        completions.len() == pre.pending@.len(),
        pre.pending@.len() > 0,
        forall|j: int| 0 <= j < completions.len() ==> completions[j] is Some,
        ResponseWaiter::poll_next_post(pre, completions, post, r),
    ensures
        r matches Some(rr) && rr.id == pre.pending@[0],
        post.pending@ == pre.pending@.drop_first(),
{
    lemma_first_ready_index(completions);
    match first_ready_index(completions) {
        None => {
            assert(completions[0] is Some);
        },
        Some(i) => {
            if i > 0 {
                assert(completions[0] is None);
            }
            assert(pre.pending@.remove(0) =~= pre.pending@.drop_first());
        },
    }
}

/// One spec-level polling round over the pending ids: the earliest ready
/// operation leaves, in submission order, or nothing does.
pub open spec fn round_pending(
    pending: Seq<u128>,
    round: Seq<Option<Result<CopyableResponse, String>>>,
) -> Seq<u128> {
    match first_ready_index(round) {
        None => pending,
        Some(i) => pending.remove(i),
    }
}

/// The ids a whole run of polling rounds yields, in yield order.
pub open spec fn run_yields(
    pending: Seq<u128>,
    rounds: Seq<Seq<Option<Result<CopyableResponse, String>>>>,
) -> Seq<u128>
    decreases rounds.len(),
{
    if rounds.len() == 0 {
        Seq::<u128>::empty()
    } else {
        match first_ready_index(rounds[0]) {
            None => run_yields(pending, rounds.drop_first()),
            Some(i) => seq![pending[i]] + run_yields(pending.remove(i), rounds.drop_first()),
        }
    }
}

/// The pending ids left after a whole run of polling rounds.
pub open spec fn run_pending(
    pending: Seq<u128>,
    rounds: Seq<Seq<Option<Result<CopyableResponse, String>>>>,
) -> Seq<u128>
    decreases rounds.len(),
{
    if rounds.len() == 0 {
        pending
    } else {
        run_pending(round_pending(pending, rounds[0]), rounds.drop_first())
    }
}

/// Every round's results line up with the operations then pending.
pub open spec fn rounds_wf(
    pending: Seq<u128>,
    rounds: Seq<Seq<Option<Result<CopyableResponse, String>>>>,
) -> bool
    decreases rounds.len(),
{
    rounds.len() == 0 || (rounds[0].len() == pending.len() && rounds_wf(
        round_pending(pending, rounds[0]),
        rounds.drop_first(),
    ))
}

/// LAW: over any whole run of polling rounds, every submitted operation is
/// yielded exactly once and nothing else is ever yielded: the ids yielded
/// and the ids still pending together are exactly the ids submitted.  N
/// operations completing in arbitrary, unpredictable order therefore yield
/// exactly N pairs in total by the time the pending set is drained.
pub proof fn law_run_yields_each_operation_exactly_once(
    pending: Seq<u128>,
    rounds: Seq<Seq<Option<Result<CopyableResponse, String>>>>,
)
    requires
        rounds_wf(pending, rounds),
    ensures
        run_yields(pending, rounds).to_multiset().add(run_pending(pending, rounds).to_multiset())
            == pending.to_multiset(),
    decreases rounds.len(),
{
    broadcast use vstd::seq_lib::group_to_multiset_ensures;

    if rounds.len() == 0 {
        assert(run_yields(pending, rounds).to_multiset().add(
            run_pending(pending, rounds).to_multiset(),
        ) =~~= pending.to_multiset());
    } else {
        lemma_first_ready_index(rounds[0]);
        law_run_yields_each_operation_exactly_once(
            round_pending(pending, rounds[0]),
            rounds.drop_first(),
        );
        match first_ready_index(rounds[0]) {
            None => {},
            Some(i) => {
                broadcast use vstd::multiset::group_multiset_axioms;

                let y = pending[i];
                let p2 = pending.remove(i);
                let ys = run_yields(p2, rounds.drop_first());
                let rp = run_pending(pending, rounds);
                vstd::seq_lib::lemma_multiset_commutative(seq![y], ys);
                assert(seq![y] =~= Seq::<u128>::empty().push(y));
                assert(Seq::<u128>::empty().push(y).to_multiset()
                    =~= Seq::<u128>::empty().to_multiset().insert(y));
                vstd::multiset::lemma_multiset_empty_len(Seq::<u128>::empty().to_multiset());
                assert(Seq::<u128>::empty().to_multiset().len() == 0);
                assert(Seq::<u128>::empty().to_multiset() =~= Multiset::<u128>::empty());
                assert(p2.to_multiset() =~= pending.to_multiset().remove(y));
                assert(pending.contains(y));
                assert(rp == run_pending(p2, rounds.drop_first()));
                assert(run_yields(pending, rounds) == seq![y] + ys);
                assert(ys.to_multiset().add(rp.to_multiset()) == p2.to_multiset());
                assert forall|v: u128|
                    run_yields(pending, rounds).to_multiset().add(rp.to_multiset()).count(v)
                        == pending.to_multiset().count(v) by {
                    assert(run_yields(pending, rounds).to_multiset().count(v)
                        == Multiset::<u128>::empty().insert(y).count(v) + ys.to_multiset().count(
                        v,
                    ));
                    assert(ys.to_multiset().count(v) + rp.to_multiset().count(v)
                        == p2.to_multiset().count(v));
                    assert(pending.to_multiset().count(y) > 0);
                    if v == y {
                        assert(p2.to_multiset().count(v) == pending.to_multiset().count(v) - 1);
                    } else {
                        assert(p2.to_multiset().count(v) == pending.to_multiset().count(v));
                    }
                }
                assert(run_yields(pending, rounds).to_multiset().add(rp.to_multiset())
                    =~= pending.to_multiset());
            },
        }
    }
}

/// LAW: an operation submitted to an idle waiter is guaranteed to be polled
/// and yielded without any unrelated external event: the submission itself
/// reports that the registered wake-up must be raised, and the next polling
/// round that finds the operation complete yields exactly it, returning the
/// waiter to idle.
pub proof fn law_idle_submit_is_woken_and_yielded(
    w0: ResponseWaiter,
    w1: ResponseWaiter,
    wake: bool,
    id: u128,
    completion: Result<CopyableResponse, String>,
    w2: ResponseWaiter,
    r: Option<RequestResponse>,
)
    requires
        w0.pending@.len() == 0,
        w0.waker_armed,
        // effect of `submit(id)` on the idle waiter
        w1.pending@ == w0.pending@.push(id),
        w1.waker_armed == w0.waker_armed,
        wake == (w0.pending@.len() == 0 && w0.waker_armed),
        // effect of the next polling round, with the operation complete
        ResponseWaiter::poll_next_post(w1, seq![Some(completion)], w2, r),
    ensures
        wake,
        r matches Some(rr) && rr.id == id && rr.response == completion,
        w2.pending@.len() == 0,
{
    let c: Seq<Option<Result<CopyableResponse, String>>> = seq![Some(completion)];
    lemma_first_ready_index(c);
    assert(first_ready_index(c) == Some(0int));
    assert(w1.pending@[0] == id);
    assert(w2.pending@ =~= w1.pending@.remove(0));
}

} // verus!
