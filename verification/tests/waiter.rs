//! The response waiter: dynamic submission, polling, ordering, wake-up.

use prxs::request::HttpVersion;
use prxs::response_waiter::{CopyableResponse, ResponseWaiter};

fn resp(status: u16) -> CopyableResponse {
    CopyableResponse {
        status,
        version: HttpVersion::Http11,
        headers: Vec::new(),
        body: Vec::new(),
        decoded: false,
    }
}

fn ready(status: u16) -> Option<Result<CopyableResponse, String>> {
    Some(Ok(resp(status)))
}

#[test]
fn an_idle_waiter_yields_nothing_and_arms_its_wakeup() {
    let mut w = ResponseWaiter::default();
    assert!(!w.waker_armed);
    assert!(w.poll_next(Vec::new()).is_none());
    assert!(w.waker_armed);
}

#[test]
fn submit_to_an_idle_waiter_raises_the_wakeup() {
    let mut w = ResponseWaiter::default();
    // nothing to wake before the loop ever polled
    assert!(!w.submit(1));
    let mut w = ResponseWaiter::default();
    assert!(w.poll_next(Vec::new()).is_none());
    // the waiter went idle with a wake-up registered: submitting must raise it
    assert!(w.submit(7));
    // and the operation is then yielded on the next poll, with no other event
    let yielded = w.poll_next(vec![ready(200)]).expect("the submitted operation must be yielded");
    assert_eq!(yielded.id, 7);
    assert_eq!(w.pending.len(), 0);
}

#[test]
fn submit_to_a_busy_waiter_does_not_wake() {
    let mut w = ResponseWaiter::default();
    assert!(w.poll_next(Vec::new()).is_none());
    assert!(w.submit(1));
    // the pending set is non-empty now: no further wake needed
    assert!(!w.submit(2));
    assert_eq!(w.pending, vec![1, 2]);
}

#[test]
fn nothing_is_yielded_before_its_operation_completed() {
    let mut w = ResponseWaiter::default();
    w.submit(1);
    w.submit(2);
    assert!(w.poll_next(vec![None, None]).is_none());
    assert_eq!(w.pending, vec![1, 2]);
    // only the second has completed: the first is not touched
    let yielded = w.poll_next(vec![None, ready(200)]).unwrap();
    assert_eq!(yielded.id, 2);
    assert_eq!(w.pending, vec![1]);
}

#[test]
fn simultaneous_completions_are_yielded_in_submission_order() {
    let mut w = ResponseWaiter::default();
    w.submit(10);
    w.submit(11);
    w.submit(12);
    // all three complete within the same poll: one per poll, ascending
    let first = w.poll_next(vec![ready(201), ready(202), ready(203)]).unwrap();
    assert_eq!(first.id, 10);
    assert_eq!(w.pending, vec![11, 12]);
    let second = w.poll_next(vec![ready(202), ready(203)]).unwrap();
    assert_eq!(second.id, 11);
    let third = w.poll_next(vec![ready(203)]).unwrap();
    assert_eq!(third.id, 12);
    assert_eq!(w.pending.len(), 0);
    match third.response {
        Ok(r) => assert_eq!(r.status, 203),
        Err(e) => panic!("unexpected error payload: {e}"),
    }
}

#[test]
fn n_operations_completing_in_arbitrary_order_yield_n_pairs_each_once() {
    let mut w = ResponseWaiter::default();
    w.submit(1);
    w.submit(2);
    w.submit(3);
    let mut yielded: Vec<u128> = Vec::new();
    // completion order: 2, then 3, then 1
    yielded.push(w.poll_next(vec![None, ready(222), None]).unwrap().id);
    yielded.push(w.poll_next(vec![None, ready(233)]).unwrap().id);
    yielded.push(w.poll_next(vec![ready(211)]).unwrap().id);
    assert!(w.poll_next(Vec::new()).is_none());
    let mut sorted = yielded.clone();
    sorted.sort();
    assert_eq!(yielded, vec![2, 3, 1]);
    assert_eq!(sorted, vec![1, 2, 3]);
}

#[test]
fn a_failed_operation_is_a_completed_one() {
    let mut w = ResponseWaiter::default();
    w.submit(5);
    let yielded = w.poll_next(vec![Some(Err("no route to host".to_string()))]).unwrap();
    assert_eq!(yielded.id, 5);
    match yielded.response {
        Ok(_) => panic!("expected the error payload through"),
        Err(e) => assert_eq!(e, "no route to host"),
    }
    assert_eq!(w.pending.len(), 0);
}

#[test]
fn operations_can_be_submitted_while_others_are_pending() {
    let mut w = ResponseWaiter::default();
    w.submit(1);
    assert!(w.poll_next(vec![None]).is_none());
    // grows at runtime, mid-flight
    w.submit(2);
    let y = w.poll_next(vec![None, ready(200)]).unwrap();
    assert_eq!(y.id, 2);
    assert_eq!(w.pending, vec![1]);
}
