//! The input bar: cluster-wise editing, history, command parsing.

use prxs::input_state::{InputCommand, InputEffect, InputKey, InputState};

fn bar() -> InputState {
    let mut s = InputState::default();
    s.match_frame(80);
    s
}

#[test]
fn typing_inserts_at_the_cursor() {
    let mut s = bar();
    s.append_char('a');
    s.append_char('b');
    s.append_char('c');
    assert_eq!(s.input, "abc");
    // move the cursor one cluster left and type into the middle
    s.scroll(false, 1);
    assert_eq!(s.right_offset, 1);
    s.append_char('d');
    assert_eq!(s.input, "abdc");
}

#[test]
fn backspace_removes_the_cluster_left_of_the_cursor() {
    let mut s = bar();
    s.append_char('a');
    s.append_char('b');
    s.append_char('c');
    s.scroll(false, 1);
    s.handle_backspace();
    assert_eq!(s.input, "ac");
    // with the cursor at the far left there is nothing to delete
    s.scroll(false, 100);
    assert_eq!(s.right_offset, 2);
    s.handle_backspace();
    assert_eq!(s.input, "ac");
}

#[test]
fn backspace_takes_a_whole_grapheme_cluster() {
    let mut s = bar();
    s.append_char('e');
    s.append_char('\u{0301}');
    // two characters, one displayed cluster
    assert_eq!(s.input.chars().count(), 2);
    s.handle_backspace();
    assert_eq!(s.input, "");
}

#[test]
fn escape_clears_the_bar_and_drops_focus() {
    let mut s = bar();
    s.selected = true;
    s.append_char('x');
    s.append_char('y');
    s.handle_escape();
    assert_eq!(s.input, "");
    assert_eq!(s.right_offset, 0);
    assert_eq!(s.bounds, (0, 0));
    assert!(!s.selected);
}

#[test]
fn entered_save_command_carries_the_path() {
    let mut s = bar();
    s.selected = true;
    s.input = ":s /tmp/session.toml".to_string();
    match s.entered_command() {
        Some(InputCommand::SaveSession(p)) => assert_eq!(p, "/tmp/session.toml"),
        other => panic!("expected a save command: {other:?}"),
    }
    assert_eq!(s.input, "");
    assert!(!s.selected);
}

#[test]
fn entered_save_without_a_path_is_no_command() {
    let mut s = bar();
    s.input = ":s".to_string();
    assert!(s.entered_command().is_none());
    // a trailing space yields an empty path, as splitting on spaces does
    let mut s = bar();
    s.input = ":S x".to_string();
    match s.entered_command() {
        Some(InputCommand::SaveSession(p)) => assert_eq!(p, "x"),
        other => panic!("expected a save command: {other:?}"),
    }
}

#[test]
fn entered_quit_commands_quit() {
    for line in [":q", ":Q", ":q now"] {
        let mut s = bar();
        s.input = line.to_string();
        assert!(
            matches!(s.entered_command(), Some(InputCommand::Quit)),
            "line {line:?} must quit"
        );
    }
}

#[test]
fn entered_tab_index_selects_that_tab() {
    let mut s = bar();
    s.input = ":2".to_string();
    assert!(matches!(s.entered_command(), Some(InputCommand::SelectTab(2))));
    let mut s = bar();
    s.input = ":+3".to_string();
    assert!(matches!(s.entered_command(), Some(InputCommand::SelectTab(3))));
}

#[test]
fn unparseable_lines_are_no_command() {
    for line in ["", "hello", ":x", ":", ":+", "::", ":12a", "q", " :q", ":99999999999999999999999999"]
    {
        let mut s = bar();
        s.input = line.to_string();
        assert!(s.entered_command().is_none(), "line {line:?} must be no command");
    }
}

#[test]
fn typed_file_honours_escapes_and_quotes() {
    assert_eq!(InputState::get_typed_file("plain next"), "plain");
    assert_eq!(InputState::get_typed_file("foo\\ bar rest"), "foo bar");
    assert_eq!(InputState::get_typed_file("\"a b\"c d"), "a bc");
    assert_eq!(InputState::get_typed_file(""), "");
}

#[test]
fn tab_over_a_save_command_asks_for_completion() {
    let mut s = bar();
    s.input = ":s par".to_string();
    assert_eq!(s.handle_tab(), Some("par".to_string()));
    assert_eq!(s.input, ":s par");
    // anywhere else, tab is just a character
    let mut s = bar();
    s.input = "ab".to_string();
    assert!(s.handle_tab().is_none());
    assert_eq!(s.input, "ab\t");
}

#[test]
fn completion_replaces_the_typed_text() {
    let mut s = bar();
    s.input = ":s par".to_string();
    s.apply_completion("partial.toml".to_string());
    assert_eq!(s.input, "partial.toml");
}

#[test]
fn command_history_tabs_up_and_down() {
    let mut s = bar();
    s.last_commands = vec![":q".to_string(), ":s x".to_string()];
    s.change_command(true);
    assert_eq!(s.input, ":q");
    assert_eq!(s.tabbed_up, Some(0));
    s.change_command(true);
    assert_eq!(s.input, ":s x");
    assert_eq!(s.tabbed_up, Some(1));
    // no older command: stay put
    s.change_command(true);
    assert_eq!(s.input, ":s x");
    s.change_command(false);
    assert_eq!(s.input, ":q");
    // below the newest: an empty line again
    s.change_command(false);
    assert_eq!(s.input, "");
    assert_eq!(s.tabbed_up, None);
    // tabbing down with no history position does nothing
    s.change_command(false);
    assert_eq!(s.input, "");
}

#[test]
fn a_resize_pins_the_window_at_the_cursor() {
    let mut s = bar();
    for c in "abcdefghij".chars() {
        s.append_char(c);
    }
    s.match_frame(5);
    assert_eq!(s.last_width, 5);
    assert_eq!(s.bounds, (5, 10));
    // same width again: nothing moves
    s.match_frame(5);
    assert_eq!(s.bounds, (5, 10));
}

#[test]
fn the_display_window_is_measured_in_columns_not_clusters() {
    let mut s = InputState::default();
    s.match_frame(4);
    // three ideographs: three clusters, six columns — wider than the bar
    s.append_char('\u{4e16}');
    s.append_char('\u{4e16}');
    s.append_char('\u{4e16}');
    // only the two rightmost clusters (four columns) would fit; the window
    // admits as many clusters as fit strictly within the width: one
    assert_eq!(s.bounds, (2, 3));
}

#[test]
fn keys_route_to_their_editing_operations() {
    let mut s = bar();
    assert!(matches!(s.route_keycode(InputKey::Char('h')), InputEffect::Nothing));
    assert!(matches!(s.route_keycode(InputKey::Char('i')), InputEffect::Nothing));
    assert_eq!(s.input, "hi");
    assert!(matches!(s.route_keycode(InputKey::Backspace), InputEffect::Nothing));
    assert_eq!(s.input, "h");
    assert!(matches!(s.route_keycode(InputKey::Enter), InputEffect::Nothing));
    assert_eq!(s.input, "");
    for c in ":q".chars() {
        s.route_keycode(InputKey::Char(c));
    }
    match s.route_keycode(InputKey::Enter) {
        InputEffect::Command(InputCommand::Quit) => {},
        other => panic!("expected the quit command: {other:?}"),
    }
}
