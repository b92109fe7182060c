//! The event loop's key dispatch over the registry.

use prxs::app::{App, AppAction};
use prxs::config::Session;
use prxs::input_state::InputKey;
use prxs::layout::{InboundRequest, LayoutState};
use prxs::request::{HttpVersion, RequestStatus};

fn inbound(uri: &str) -> InboundRequest {
    InboundRequest {
        method: "POST".to_string(),
        uri: uri.to_string(),
        version: HttpVersion::Http11,
        headers: Vec::new(),
        body: Vec::new(),
    }
}

#[test]
fn quit_keys_quit() {
    let mut app = App::new(Session::default());
    let mut layout = LayoutState::default();
    assert!(matches!(app.handle_key(&mut layout, InputKey::Char('q')), AppAction::Quit));
    assert!(matches!(app.handle_key(&mut layout, InputKey::Esc), AppAction::Quit));
    assert!(matches!(app.handle_key(&mut layout, InputKey::Ctrl('c')), AppAction::Quit));
    assert!(matches!(app.handle_key(&mut layout, InputKey::Ctrl('x')), AppAction::Continue));
}

#[test]
fn forwarding_a_request_registers_it_with_the_waiter() {
    let mut app = App::new(Session::default());
    let mut layout = LayoutState::default();
    let id = layout.add_request(inbound("/a"));
    // the loop has polled the idle waiter: its wake-up is armed
    assert!(app.response_waiter.poll_next(Vec::new()).is_none());
    match app.handle_key(&mut layout, InputKey::Char('f')) {
        AppAction::Forward { id: fid, wake } => {
            assert_eq!(fid, id);
            assert!(wake);
        },
        other => panic!("expected a forward action: {other:?}"),
    }
    assert_eq!(app.response_waiter.pending, vec![id]);
    assert_eq!(layout.reqs()[0].status, RequestStatus::AwaitingOutcome);
    // pressing f again finds no capability left: nothing is resubmitted
    assert!(matches!(app.handle_key(&mut layout, InputKey::Char('F')), AppAction::Continue));
    assert_eq!(app.response_waiter.pending, vec![id]);
}

#[test]
fn dropping_a_request_never_touches_the_waiter() {
    let mut app = App::new(Session::default());
    let mut layout = LayoutState::default();
    let id = layout.add_request(inbound("/a"));
    match app.handle_key(&mut layout, InputKey::Char('d')) {
        AppAction::Dropped { id: did } => assert_eq!(did, id),
        other => panic!("expected a dropped notice: {other:?}"),
    }
    assert_eq!(layout.reqs()[0].status, RequestStatus::Dropped);
    assert_eq!(app.response_waiter.pending.len(), 0);
    // a second d finds no capability: nothing to tell the connection
    assert!(matches!(app.handle_key(&mut layout, InputKey::Char('d')), AppAction::Continue));
}

#[test]
fn navigation_keys_move_the_selection() {
    let mut app = App::new(Session::default());
    let mut layout = LayoutState::default();
    layout.add_request(inbound("/a"));
    layout.add_request(inbound("/b"));
    app.handle_key(&mut layout, InputKey::Char('j'));
    assert_eq!(layout.req_idx(), Some(1));
    app.handle_key(&mut layout, InputKey::Down);
    assert_eq!(layout.req_idx(), Some(1));
    app.handle_key(&mut layout, InputKey::Char('k'));
    assert_eq!(layout.req_idx(), Some(0));
    app.handle_key(&mut layout, InputKey::Up);
    assert_eq!(layout.req_idx(), Some(0));
}

#[test]
fn any_key_wipes_the_error_line() {
    let mut app = App::new(Session::default());
    let mut layout = LayoutState::default();
    layout.show_error("something broke".to_string());
    assert!(layout.err_msg.is_some());
    app.handle_key(&mut layout, InputKey::Char('j'));
    assert!(layout.err_msg.is_none());
}

#[test]
fn colon_focuses_the_bar_and_types_itself() {
    let mut app = App::new(Session::default());
    let mut layout = LayoutState::default();
    layout.input.match_frame(80);
    assert!(matches!(app.handle_key(&mut layout, InputKey::Char(':')), AppAction::Continue));
    assert!(layout.input.selected);
    assert_eq!(layout.input.input, ":");
    // an entered quit command comes back as the quit action
    app.handle_key(&mut layout, InputKey::Char('q'));
    assert_eq!(layout.input.input, ":q");
    assert!(matches!(app.handle_key(&mut layout, InputKey::Enter), AppAction::Quit));
    assert!(!layout.input.selected);
}

#[test]
fn entered_save_command_comes_back_as_a_save_action() {
    let mut app = App::new(Session::default());
    let mut layout = LayoutState::default();
    layout.input.match_frame(80);
    app.handle_key(&mut layout, InputKey::Char('i'));
    assert!(layout.input.selected);
    assert_eq!(layout.input.input, "");
    for c in ":s out.toml".chars() {
        app.handle_key(&mut layout, InputKey::Char(c));
    }
    match app.handle_key(&mut layout, InputKey::Enter) {
        AppAction::SaveSession(p) => assert_eq!(p, "out.toml"),
        other => panic!("expected a save action: {other:?}"),
    }
}

#[test]
fn entered_tab_selection_switches_the_pane() {
    let mut app = App::new(Session::default());
    let mut layout = LayoutState::default();
    layout.input.match_frame(80);
    layout.add_request(inbound("/a"));
    app.handle_key(&mut layout, InputKey::Char('p'));
    assert_eq!(layout.tabs().len(), 1);
    for c in ":0".chars() {
        app.handle_key(&mut layout, InputKey::Char(c));
    }
    // ':' focused the bar, so this line was typed into it
    assert!(layout.input.selected);
    assert!(matches!(app.handle_key(&mut layout, InputKey::Enter), AppAction::Continue));
    assert_eq!(layout.current_tab_idx(), Some(0));
}

#[test]
fn editor_and_detach_keys_ask_their_actions() {
    let mut app = App::new(Session::default());
    let mut layout = LayoutState::default();
    layout.add_request(inbound("/a"));
    assert!(matches!(app.handle_key(&mut layout, InputKey::Char('e')), AppAction::EditNotes));
    assert!(matches!(app.handle_key(&mut layout, InputKey::Char('p')), AppAction::Continue));
    assert_eq!(layout.tabs().len(), 1);
    // an unbound key does nothing
    assert!(matches!(app.handle_key(&mut layout, InputKey::Char('z')), AppAction::Continue));
}

#[test]
fn session_round_trips_through_the_app() {
    let session = Session { filter: "host: example".to_string() };
    let app = App::new(session);
    assert_eq!(app.session.filter, "host: example");
}
