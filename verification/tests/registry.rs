//! The registry: capture, selection, decisions, outcomes, tabs.

use prxs::layout::{InboundRequest, LayoutState, MainPane, Pane, PaneSelector, Tab, TabPane};
use prxs::request::{HttpVersion, Request, RequestInteraction, RequestStatus};
use prxs::response_waiter::{CopyableResponse, RequestResponse};

fn inbound(uri: &str) -> InboundRequest {
    InboundRequest {
        method: "GET".to_string(),
        uri: uri.to_string(),
        version: HttpVersion::Http11,
        headers: Vec::new(),
        body: b"hello".to_vec(),
    }
}

fn ok_response(body: &[u8]) -> CopyableResponse {
    CopyableResponse {
        status: 200,
        version: HttpVersion::Http11,
        headers: Vec::new(),
        body: body.to_vec(),
        decoded: false,
    }
}

#[test]
fn capture_auto_selects_only_when_nothing_is_selected() {
    let mut layout = LayoutState::default();
    assert_eq!(layout.req_idx(), None);
    layout.add_request(inbound("/a"));
    assert_eq!(layout.req_idx(), Some(0));
    layout.add_request(inbound("/b"));
    // a new arrival never steals focus
    assert_eq!(layout.req_idx(), Some(0));
    assert_eq!(layout.reqs().len(), 2);
    assert_eq!(layout.reqs()[0].uri, "/a");
    assert_eq!(layout.reqs()[1].uri, "/b");
}

#[test]
fn captured_request_starts_pending_with_capability() {
    let mut layout = LayoutState::default();
    let id = layout.add_request(inbound("/a"));
    let req = &layout.reqs()[0];
    assert_eq!(req.id, id);
    assert_eq!(req.status, RequestStatus::Pending);
    assert!(req.interaction_tx.is_some());
    assert!(req.resp.is_none());
}

#[test]
fn scrolling_clamps_at_both_ends_and_ignores_an_empty_list() {
    let mut layout = LayoutState::default();
    // no-op on an empty list
    layout.scroll_down();
    assert_eq!(layout.req_idx(), None);
    layout.add_request(inbound("/a"));
    layout.add_request(inbound("/b"));
    layout.add_request(inbound("/c"));
    assert_eq!(layout.req_idx(), Some(0));
    layout.scroll_up();
    assert_eq!(layout.req_idx(), Some(0));
    layout.scroll_down();
    layout.scroll_down();
    assert_eq!(layout.req_idx(), Some(2));
    layout.scroll_down();
    assert_eq!(layout.req_idx(), Some(2));
    layout.scroll_up();
    assert_eq!(layout.req_idx(), Some(1));
}

#[test]
fn forward_consumes_the_capability_exactly_once() {
    let mut layout = LayoutState::default();
    let id = layout.add_request(inbound("/a"));
    let ticket = layout.decide_current(RequestInteraction::Forward);
    assert_eq!(ticket.map(|t| t.id), Some(id));
    assert_eq!(layout.reqs()[0].status, RequestStatus::AwaitingOutcome);
    assert!(layout.reqs()[0].interaction_tx.is_none());
    // a second decision, of either kind, is a safe no-op
    assert!(layout.decide_current(RequestInteraction::Forward).is_none());
    assert!(layout.decide_current(RequestInteraction::Drop).is_none());
    assert_eq!(layout.reqs()[0].status, RequestStatus::AwaitingOutcome);
}

#[test]
fn drop_is_terminal_and_yields_no_ticket() {
    let mut layout = LayoutState::default();
    layout.add_request(inbound("/a"));
    let ticket = layout.decide_current(RequestInteraction::Drop);
    assert!(ticket.is_none());
    assert_eq!(layout.reqs()[0].status, RequestStatus::Dropped);
    assert!(layout.reqs()[0].interaction_tx.is_none());
    // and it cannot be re-decided
    assert!(layout.decide_current(RequestInteraction::Forward).is_none());
    assert_eq!(layout.reqs()[0].status, RequestStatus::Dropped);
}

#[test]
fn outcome_is_stored_with_its_request() {
    let mut layout = LayoutState::default();
    let id = layout.add_request(inbound("/a"));
    layout.decide_current(RequestInteraction::Forward);
    layout.handle_req_response(RequestResponse { id, response: Ok(ok_response(b"body")) });
    let req = &layout.reqs()[0];
    assert_eq!(req.status, RequestStatus::Completed);
    match &req.resp {
        Some(rr) => match &rr.response {
            Ok(resp) => assert_eq!(resp.body, b"body".to_vec()),
            Err(e) => panic!("unexpected error outcome: {e}"),
        },
        None => panic!("outcome was not stored"),
    }
}

#[test]
fn transport_error_outcome_is_stored_as_an_error() {
    let mut layout = LayoutState::default();
    let id = layout.add_request(inbound("/a"));
    layout.decide_current(RequestInteraction::Forward);
    layout.handle_req_response(RequestResponse {
        id,
        response: Err("connection refused".to_string()),
    });
    let req = &layout.reqs()[0];
    assert_eq!(req.status, RequestStatus::Completed);
    match &req.resp {
        Some(rr) => match &rr.response {
            Ok(_) => panic!("expected an error outcome"),
            Err(e) => assert_eq!(e, "connection refused"),
        },
        None => panic!("outcome was not stored"),
    }
}

#[test]
fn unknown_outcome_id_is_a_logged_no_op() {
    let mut layout = LayoutState::default();
    let id = layout.add_request(inbound("/a"));
    layout.decide_current(RequestInteraction::Forward);
    layout.handle_req_response(RequestResponse {
        id: id.wrapping_add(1),
        response: Err("lost".to_string()),
    });
    // the outcome went nowhere, an error line is showing, nothing crashed
    assert_eq!(layout.reqs()[0].status, RequestStatus::AwaitingOutcome);
    assert!(layout.reqs()[0].resp.is_none());
    assert!(layout.err_msg.is_some());
}

#[test]
fn outcome_for_an_undecided_request_is_not_stored() {
    let mut layout = LayoutState::default();
    let id = layout.add_request(inbound("/a"));
    layout.handle_req_response(RequestResponse { id, response: Ok(ok_response(b"x")) });
    // still pending: an outcome can exist only for a forwarded request
    assert_eq!(layout.reqs()[0].status, RequestStatus::Pending);
    assert!(layout.reqs()[0].resp.is_none());
}

#[test]
fn detached_tab_is_deeply_independent() {
    let mut layout = LayoutState::default();
    let id = layout.add_request(inbound("/a"));
    layout.separate_current_req();
    assert_eq!(layout.tabs().len(), 1);
    assert_eq!(layout.reqs().len(), 1);
    assert_eq!(layout.tabs()[0].req.id, id);
    assert_eq!(layout.tabs()[0].req.uri, "/a");
    assert!(layout.tabs()[0].req.interaction_tx.is_none());
    assert_eq!(layout.tabs()[0].notes, "");
    assert!(layout.tabs()[0].name.is_none());
    // the registry's copy kept the capability
    assert!(layout.reqs()[0].interaction_tx.is_some());

    // mutate the tab: notes and name; the registry's entry must not move
    layout.select_pane_with_input(PaneSelector::Idx(0));
    assert!(layout.set_current_tab_notes("some notes".to_string()));
    layout.rename_current_tab("my tab".to_string());
    assert_eq!(layout.tabs()[0].notes, "some notes");
    assert_eq!(layout.tabs()[0].name.as_deref(), Some("my tab"));
    assert_eq!(layout.reqs()[0].status, RequestStatus::Pending);
    assert!(layout.reqs()[0].interaction_tx.is_some());
    assert_eq!(layout.reqs()[0].uri, "/a");

    // mutate the registry's entry: decide and complete it; the tab must not move
    layout.select_pane_with_input(PaneSelector::Key('m'));
    layout.decide_current(RequestInteraction::Forward);
    layout.handle_req_response(RequestResponse { id, response: Ok(ok_response(b"done")) });
    assert_eq!(layout.reqs()[0].status, RequestStatus::Completed);
    assert_eq!(layout.tabs()[0].req.status, RequestStatus::Pending);
    assert!(layout.tabs()[0].req.resp.is_none());
    assert_eq!(layout.tabs()[0].notes, "some notes");
}

#[test]
fn concurrent_capture_and_drop_leaves_the_other_request_forwardable() {
    // two inbound requests arrive; the operator drops the first before even
    // looking at the second
    let mut layout = LayoutState::default();
    let id_a = layout.add_request(inbound("/a"));
    let id_b = layout.add_request(inbound("/b"));
    assert_ne!(id_a, id_b);
    layout.decide_current(RequestInteraction::Drop);
    assert_eq!(layout.reqs()[0].status, RequestStatus::Dropped);
    assert_eq!(layout.reqs()[1].status, RequestStatus::Pending);
    // the second request is still independently forwardable
    layout.scroll_down();
    let ticket = layout.decide_current(RequestInteraction::Forward);
    assert_eq!(ticket.map(|t| t.id), Some(id_b));
    assert_eq!(layout.reqs()[1].status, RequestStatus::AwaitingOutcome);
    assert_eq!(layout.reqs()[0].status, RequestStatus::Dropped);
}

#[test]
fn a_stalled_request_does_not_block_another() {
    // the operator never decides on the first request; the second is
    // captured, decided, forwarded and completed while the first waits
    let mut layout = LayoutState::default();
    let id_a = layout.add_request(inbound("/a"));
    let id_b = layout.add_request(inbound("/b"));
    layout.scroll_down();
    layout.decide_current(RequestInteraction::Forward);
    layout.handle_req_response(RequestResponse { id: id_b, response: Ok(ok_response(b"fine")) });
    assert_eq!(layout.reqs()[1].status, RequestStatus::Completed);
    // the stalled request is untouched and still decidable
    assert_eq!(layout.reqs()[0].status, RequestStatus::Pending);
    assert!(layout.reqs()[0].interaction_tx.is_some());
    // the registry still answers input: scrolling and selecting keep working
    layout.scroll_up();
    assert_eq!(layout.req_idx(), Some(0));
    let ticket = layout.decide_current(RequestInteraction::Forward);
    assert_eq!(ticket.map(|t| t.id), Some(id_a));
}

#[test]
fn pane_selection_follows_keys_and_indices() {
    let mut layout = LayoutState::default();
    layout.add_request(inbound("/a"));
    match layout.current_pane() {
        Pane::Main { pane: MainPane::ReqList, scroll } => assert_eq!(*scroll, 0),
        other => panic!("unexpected opening pane: {other:?}"),
    }
    // selecting a tab that does not exist is a no-op
    layout.select_pane_with_input(PaneSelector::Idx(0));
    assert!(matches!(layout.current_pane(), Pane::Main { .. }));
    layout.separate_current_req();
    layout.select_pane_with_input(PaneSelector::Idx(0));
    match layout.current_pane() {
        Pane::Tab { idx, pane: TabPane::Notes, .. } => assert_eq!(*idx, 0),
        other => panic!("expected the tab's notes pane: {other:?}"),
    }
    layout.select_pane_with_input(PaneSelector::Key('w'));
    assert!(matches!(layout.current_pane(), Pane::Tab { pane: TabPane::Req, .. }));
    layout.select_pane_with_input(PaneSelector::Key('m'));
    assert!(matches!(
        layout.current_pane(),
        Pane::Main { pane: MainPane::ReqList, .. }
    ));
    layout.select_pane_with_input(PaneSelector::Key('s'));
    assert!(matches!(layout.current_pane(), Pane::Main { pane: MainPane::Resp, .. }));
}

#[test]
fn tabs_are_renamed_and_annotated_by_index() {
    let mut layout = LayoutState::default();
    layout.add_request(inbound("/a"));
    layout.separate_current_req();
    assert!(layout.rename_tab(0, "first".to_string()));
    assert!(layout.set_notes(0, "a note".to_string()));
    assert_eq!(layout.tabs()[0].name.as_deref(), Some("first"));
    assert_eq!(layout.tabs()[0].notes, "a note");
    // an index without a tab takes nothing
    assert!(!layout.rename_tab(1, "ghost".to_string()));
    assert!(!layout.set_notes(1, "ghost".to_string()));
    // and the registry's entries never move
    assert_eq!(layout.reqs()[0].uri, "/a");
}

#[test]
fn scrolling_a_content_pane_moves_its_own_scroll() {
    let mut layout = LayoutState::default();
    layout.add_request(inbound("/a"));
    layout.add_request(inbound("/b"));
    layout.select_pane_with_input(PaneSelector::Key('w'));
    layout.scroll_down();
    layout.scroll_down();
    match layout.current_pane() {
        Pane::Main { pane: MainPane::Req, scroll } => assert_eq!(*scroll, 2),
        other => panic!("expected the request pane: {other:?}"),
    }
    // the list selection did not move while a content pane was focused
    assert_eq!(layout.req_idx(), Some(0));
    layout.scroll_up();
    layout.scroll_up();
    layout.scroll_up();
    match layout.current_pane() {
        Pane::Main { pane: MainPane::Req, scroll } => assert_eq!(*scroll, 0),
        other => panic!("expected the request pane: {other:?}"),
    }
}

#[test]
fn current_req_resolves_against_the_active_pane() {
    let mut layout = LayoutState::default();
    layout.add_request(inbound("/a"));
    layout.separate_current_req();
    layout.add_request(inbound("/b"));
    assert_eq!(layout.current_req().map(|r| r.uri.as_str()), Some("/a"));
    layout.select_pane_with_input(PaneSelector::Idx(0));
    assert_eq!(layout.current_req().map(|r| r.uri.as_str()), Some("/a"));
    layout.select_pane_with_input(PaneSelector::Key('m'));
    layout.scroll_down();
    assert_eq!(layout.current_req().map(|r| r.uri.as_str()), Some("/b"));
}

#[test]
fn main_list_entry_takes_the_outcome_before_any_tab() {
    // after detaching, both the registry's entry and the tab carry the id;
    // the outcome lands on the main-list entry and the tab stays frozen
    let mut layout = LayoutState::default();
    let id = layout.add_request(inbound("/a"));
    layout.decide_current(RequestInteraction::Forward);
    layout.separate_current_req();
    assert_eq!(layout.tabs()[0].req.status, RequestStatus::AwaitingOutcome);
    layout.handle_req_response(RequestResponse { id, response: Ok(ok_response(b"one")) });
    assert_eq!(layout.reqs()[0].status, RequestStatus::Completed);
    assert_eq!(layout.tabs()[0].req.status, RequestStatus::AwaitingOutcome);
    assert!(layout.err_msg.is_none());
}

#[test]
fn outcome_reaches_a_tab_when_no_main_entry_carries_the_id() {
    let mut layout = LayoutState::default();
    layout.tabs.push(Tab {
        req: Request {
            id: 9,
            interaction_tx: None,
            method: "GET".to_string(),
            uri: "/a".to_string(),
            version: HttpVersion::Http11,
            headers: Vec::new(),
            body: Vec::new(),
            status: RequestStatus::AwaitingOutcome,
            resp: None,
        },
        notes: "kept".to_string(),
        name: None,
    });
    layout.handle_req_response(RequestResponse { id: 9, response: Ok(ok_response(b"tab")) });
    assert_eq!(layout.tabs()[0].req.status, RequestStatus::Completed);
    assert!(layout.tabs()[0].req.resp.is_some());
    // the notes were not touched by the delivery
    assert_eq!(layout.tabs()[0].notes, "kept");
    assert!(layout.err_msg.is_none());
}
