//! The stored-body decode transform, against real gzip data.

use std::io::Write;

use prxs::layout::{InboundRequest, LayoutState};
use prxs::request::{HttpVersion, RequestInteraction};
use prxs::response_waiter::{CopyableResponse, RequestResponse};

fn gzipped(text: &[u8]) -> Vec<u8> {
    let mut enc = flate2::write::GzEncoder::new(Vec::new(), flate2::Compression::default());
    enc.write_all(text).unwrap();
    enc.finish().unwrap()
}

fn stored(body: Vec<u8>) -> CopyableResponse {
    CopyableResponse {
        status: 200,
        version: HttpVersion::Http11,
        headers: Vec::new(),
        body,
        decoded: false,
    }
}

#[test]
fn decode_turns_a_compressed_body_into_readable_text() {
    let mut resp = stored(gzipped(b"hello, operator"));
    assert_ne!(resp.body, b"hello, operator".to_vec());
    assert!(resp.try_gunzip());
    assert_eq!(resp.body, b"hello, operator".to_vec());
    assert!(resp.decoded);
}

#[test]
fn decoding_twice_neither_corrupts_nor_crashes() {
    let mut resp = stored(gzipped(b"payload"));
    assert!(resp.try_gunzip());
    let body_after_first = resp.body.clone();
    // the guard makes the second invocation a clean no-op
    assert!(resp.try_gunzip());
    assert_eq!(resp.body, body_after_first);
    assert_eq!(resp.body, b"payload".to_vec());
    assert!(resp.decoded);
}

#[test]
fn a_body_that_is_not_gzip_is_left_unchanged() {
    let mut resp = stored(b"plain text".to_vec());
    assert!(!resp.try_gunzip());
    assert_eq!(resp.body, b"plain text".to_vec());
    assert!(!resp.decoded);
}

#[test]
fn operator_decode_command_works_through_the_registry() {
    let mut layout = LayoutState::default();
    let id = layout.add_request(InboundRequest {
        method: "GET".to_string(),
        uri: "/compressed".to_string(),
        version: HttpVersion::Http11,
        headers: Vec::new(),
        body: Vec::new(),
    });
    layout.decide_current(RequestInteraction::Forward);
    layout.handle_req_response(RequestResponse {
        id,
        response: Ok(stored(gzipped(b"origin says hi"))),
    });
    layout.try_gunzip_current();
    match &layout.reqs()[0].resp {
        Some(rr) => match &rr.response {
            Ok(resp) => {
                assert_eq!(resp.body, b"origin says hi".to_vec());
                assert!(resp.decoded);
            },
            Err(e) => panic!("unexpected error outcome: {e}"),
        },
        None => panic!("outcome was not stored"),
    }
    assert!(layout.err_msg.is_none());
    // decode again: still readable, no corruption, no error
    layout.try_gunzip_current();
    match &layout.reqs()[0].resp {
        Some(rr) => match &rr.response {
            Ok(resp) => assert_eq!(resp.body, b"origin says hi".to_vec()),
            Err(e) => panic!("unexpected error outcome: {e}"),
        },
        None => panic!("outcome was not stored"),
    }
    assert!(layout.err_msg.is_none());
}

#[test]
fn decode_of_an_uncompressed_stored_body_reports_an_error() {
    let mut layout = LayoutState::default();
    let id = layout.add_request(InboundRequest {
        method: "GET".to_string(),
        uri: "/plain".to_string(),
        version: HttpVersion::Http11,
        headers: Vec::new(),
        body: Vec::new(),
    });
    layout.decide_current(RequestInteraction::Forward);
    layout.handle_req_response(RequestResponse { id, response: Ok(stored(b"plain".to_vec())) });
    layout.try_gunzip_current();
    assert!(layout.err_msg.is_some());
    match &layout.reqs()[0].resp {
        Some(rr) => match &rr.response {
            Ok(resp) => {
                assert_eq!(resp.body, b"plain".to_vec());
                assert!(!resp.decoded);
            },
            Err(e) => panic!("unexpected error outcome: {e}"),
        },
        None => panic!("outcome was not stored"),
    }
}
