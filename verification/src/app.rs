//! The event loop's decision core.
//!
//! The application's top-level loop — terminal events, the listener, newly
//! captured requests, completed forwards — lives with the runtime outside
//! the library.  What the loop *decides* lives here: every key press and
//! every entered command is dispatched over the registry by `handle_key`,
//! which hands back the one action the loop must perform that the library
//! cannot (quit, invoke the upstream connector, run the external editor,
//! write the session file, complete a path).

use vstd::prelude::*;

use crate::config::Session;
use crate::input_state::{InputCommand, InputEffect, InputKey, InputState};
use crate::layout::{LayoutState, PaneSelector};
use crate::request::{ForwardTicket, RequestInteraction};
use crate::response_waiter::ResponseWaiter;

verus! {

/// The verified application state: the operator's session document and the
/// response waiter over all outstanding forwards.  The registry travels
/// separately through the loop, as its own value.
#[derive(Debug)]
pub struct App {
    /// The current session state.
    pub session: Session,
    /// The multiplexer over all outstanding forward operations.
    pub response_waiter: ResponseWaiter,
}

/// What the event loop must do after dispatching one key press: nothing
/// more, quit, start the upstream round trip for a newly forwarded request
/// (raising the waiter's wake-up if it had gone idle), tell a waiting
/// connection its request was dropped, run the external notes editor, write
/// the session document, or complete a typed path.
#[derive(Debug)]
pub enum AppAction {
    Continue,
    Quit,
    Forward { id: u128, wake: bool },
    Dropped { id: u128 },
    EditNotes,
    SaveSession(String),
    CompleteFile(String),
}

/// `pre` with the error line cleared: every key press first wipes the
/// previous error from the screen.
pub open spec fn cleared(pre: LayoutState) -> LayoutState {
    LayoutState {
        requests: pre.requests,
        current_req_idx: pre.current_req_idx,
        tabs: pre.tabs,
        input: pre.input,
        current_pane: pre.current_pane,
        err_msg: None,
    }
}

/// `input` with focus set: typing now goes into the bar.
pub open spec fn focused(input: InputState) -> InputState {
    InputState {
        input: input.input,
        bounds: input.bounds,
        right_offset: input.right_offset,
        last_width: input.last_width,
        last_commands: input.last_commands,
        tabbed_up: input.tabbed_up,
        selected: true,
    }
}

/// `mid` with its input bar replaced.
pub open spec fn with_input(mid: LayoutState, input: InputState) -> LayoutState {
    LayoutState {
        requests: mid.requests,
        current_req_idx: mid.current_req_idx,
        tabs: mid.tabs,
        input,
        current_pane: mid.current_pane,
        err_msg: mid.err_msg,
    }
}

impl App {
    /// Constructs a new application around a restored session: no forwards
    /// outstanding yet.
    pub fn new(session: Session) -> (r: App)
        ensures
            r.session == session,
            r.response_waiter.pending@ == Seq::<u128>::empty(),
            !r.response_waiter.waker_armed,
    {
        App { session, response_waiter: ResponseWaiter::default() }
    }

    /// How dispatching an entered command relates the registry before and
    /// after, with the returned action: saving and quitting are the loop's
    /// to perform; selecting a tab happens right here.
    pub open spec fn input_command_post(
        cmd: InputCommand,
        pre: LayoutState,
        post: LayoutState,
        r: AppAction,
    ) -> bool {
        match cmd {
            InputCommand::SaveSession(p) => post == pre && r == AppAction::SaveSession(p),
            InputCommand::Quit => post == pre && r == AppAction::Quit,
            InputCommand::SelectTab(i) => LayoutState::select_pane_post(
                pre,
                post,
                PaneSelector::Idx(i),
            ) && r == AppAction::Continue,
        }
    }

    /// Dispatch an entered command over the registry.
    pub fn handle_input_command(&mut self, cmd: InputCommand, layout: &mut LayoutState) -> (r:
        AppAction)
        requires
            old(layout).wf(),
        ensures
            final(layout).wf(),
            *final(self) == *old(self),
            App::input_command_post(cmd, *old(layout), *final(layout), r),
    {
        match cmd {
            InputCommand::SaveSession(path) => AppAction::SaveSession(path),
            InputCommand::Quit => AppAction::Quit,
            InputCommand::SelectTab(idx) => {
                layout.select_pane_with_input(PaneSelector::Idx(idx));
                AppAction::Continue
            },
        }
    }

    /// How dispatching one key press relates the application and the
    /// registry before and after, with the returned action.  The previous
    /// error line is always wiped first.  With the input bar focused the
    /// key goes into the bar and any entered command is dispatched.
    /// Otherwise: `q`, escape and control-c quit; `j`/down and `k`/up
    /// move the selection; `f` delivers a `Forward` decision and, on a
    /// fresh ticket, registers the operation with the waiter; `d` delivers
    /// a `Drop` decision; `i` and `:` focus the input bar; `m`, `w`, `a`
    /// and `s` select panes; `p` detaches the selected request into a tab;
    /// `e` asks the loop to run the notes editor; anything else does
    /// nothing.
    pub open spec fn handle_key_post(
        pre_app: App,
        post_app: App,
        pre: LayoutState,
        post: LayoutState,
        key: InputKey,
        r: AppAction,
    ) -> bool {
        let mid = cleared(pre);
        if pre.input.selected {
            exists|eff: InputEffect|
                {
                    &&& #[trigger] InputState::route_post(mid.input, post.input, key, eff)
                    &&& match eff {
                        InputEffect::Nothing => post == with_input(mid, post.input) && r
                            == AppAction::Continue && post_app == pre_app,
                        InputEffect::CompleteFile(p) => post == with_input(mid, post.input) && r
                            == AppAction::CompleteFile(p) && post_app == pre_app,
                        InputEffect::Command(cmd) => App::input_command_post(
                            cmd,
                            with_input(mid, post.input),
                            post,
                            r,
                        ) && post_app == pre_app,
                    }
                }
        } else {
            match key {
                InputKey::Esc => post == mid && post_app == pre_app && r == AppAction::Quit,
                InputKey::Ctrl(c) => if c == 'c' {
                    post == mid && post_app == pre_app && r == AppAction::Quit
                } else {
                    post == mid && post_app == pre_app && r == AppAction::Continue
                },
                InputKey::Down => LayoutState::mod_req_idx_post(mid, post, 1) && post_app == pre_app
                    && r == AppAction::Continue,
                InputKey::Up => LayoutState::mod_req_idx_post(mid, post, -1) && post_app == pre_app
                    && r == AppAction::Continue,
                InputKey::Char(c) => if c == 'q' {
                    post == mid && post_app == pre_app && r == AppAction::Quit
                } else if c == 'j' {
                    LayoutState::mod_req_idx_post(mid, post, 1) && post_app == pre_app && r
                        == AppAction::Continue
                } else if c == 'k' {
                    LayoutState::mod_req_idx_post(mid, post, -1) && post_app == pre_app && r
                        == AppAction::Continue
                } else if c == 'f' || c == 'F' {
                    exists|tk: Option<ForwardTicket>|
                        {
                            &&& #[trigger] LayoutState::decide_current_post(
                                mid,
                                post,
                                RequestInteraction::Forward,
                                tk,
                            )
                            &&& match tk {
                                Some(t) => {
                                    &&& r == (AppAction::Forward {
                                        id: t.id,
                                        wake: pre_app.response_waiter.pending@.len() == 0
                                            && pre_app.response_waiter.waker_armed,
                                    })
                                    &&& post_app.session == pre_app.session
                                    &&& post_app.response_waiter.pending@
                                        == pre_app.response_waiter.pending@.push(t.id)
                                    &&& post_app.response_waiter.waker_armed
                                        == pre_app.response_waiter.waker_armed
                                },
                                None => r == AppAction::Continue && post_app == pre_app,
                            }
                        }
                } else if c == 'd' || c == 'D' {
                    exists|tk: Option<ForwardTicket>|
                        {
                            &&& #[trigger] LayoutState::decide_current_post(
                                mid,
                                post,
                                RequestInteraction::Drop,
                                tk,
                            )
                            &&& post_app == pre_app
                            &&& match mid.spec_current_req() {
                                Some(r0) => if r0.interaction_tx is Some {
                                    r == (AppAction::Dropped { id: r0.id })
                                } else {
                                    r == AppAction::Continue
                                },
                                None => r == AppAction::Continue,
                            }
                        }
                } else if c == 'i' {
                    post == with_input(mid, focused(mid.input)) && post_app == pre_app && r
                        == AppAction::Continue
                } else if c == ':' {
                    &&& InputState::append_char_post(focused(mid.input), post.input, ':')
                    &&& post == with_input(mid, post.input)
                    &&& post_app == pre_app
                    &&& r == AppAction::Continue
                } else if c == 'm' || c == 'w' || c == 'a' || c == 's' {
                    LayoutState::select_pane_post(mid, post, PaneSelector::Key(c)) && post_app
                        == pre_app && r == AppAction::Continue
                } else if c == 'p' || c == 'P' {
                    LayoutState::separate_post(mid, post) && post_app == pre_app && r
                        == AppAction::Continue
                } else if c == 'e' || c == 'E' {
                    post == mid && post_app == pre_app && r == AppAction::EditNotes
                } else {
                    post == mid && post_app == pre_app && r == AppAction::Continue
                },
                _ => post == mid && post_app == pre_app && r == AppAction::Continue,
            }
        }
    }

    /// Dispatch one key press over the registry, and say what the loop
    /// must now do.
    pub fn handle_key(&mut self, layout: &mut LayoutState, key: InputKey) -> (r: AppAction)
        requires
            old(layout).wf(),
        ensures
            final(layout).wf(),
            App::handle_key_post(
                *old(self),
                *final(self),
                *old(layout),
                *final(layout),
                key,
                r,
            ),
    {
        layout.err_msg = None;
        if layout.input.selected {
            match layout.input.route_keycode(key) {
                InputEffect::Nothing => AppAction::Continue,
                InputEffect::CompleteFile(p) => AppAction::CompleteFile(p),
                InputEffect::Command(cmd) => self.handle_input_command(cmd, layout),
            }
        } else {
            match key {
                InputKey::Esc => AppAction::Quit,
                InputKey::Ctrl(c) => {
                    if c == 'c' {
                        AppAction::Quit
                    } else {
                        AppAction::Continue
                    }
                },
                InputKey::Down => {
                    layout.scroll_down();
                    AppAction::Continue
                },
                InputKey::Up => {
                    layout.scroll_up();
                    AppAction::Continue
                },
                InputKey::Char(c) => {
                    if c == 'q' {
                        AppAction::Quit
                    } else if c == 'j' {
                        layout.scroll_down();
                        AppAction::Continue
                    } else if c == 'k' {
                        layout.scroll_up();
                        AppAction::Continue
                    } else if c == 'f' || c == 'F' {
                        match layout.decide_current(RequestInteraction::Forward) {
                            Some(t) => {
                                let wake = self.response_waiter.submit(t.id);
                                AppAction::Forward { id: t.id, wake }
                            },
                            None => AppAction::Continue,
                        }
                    } else if c == 'd' || c == 'D' {
                        let dropped_id: Option<u128> = match layout.current_req() {
                            Some(r) => if r.interaction_tx.is_some() {
                                Some(r.id)
                            } else {
                                None
                            },
                            None => None,
                        };
                        let _ticket = layout.decide_current(RequestInteraction::Drop);
                        match dropped_id {
                            Some(id) => AppAction::Dropped { id },
                            None => AppAction::Continue,
                        }
                    } else if c == 'i' {
                        layout.input.selected = true;
                        AppAction::Continue
                    } else if c == ':' {
                        layout.input.selected = true;
                        layout.input.route_keycode(InputKey::Char(':'));
                        AppAction::Continue
                    } else if c == 'm' || c == 'w' || c == 'a' || c == 's' {
                        layout.select_pane_with_input(PaneSelector::Key(c));
                        AppAction::Continue
                    } else if c == 'p' || c == 'P' {
                        layout.separate_current_req();
                        AppAction::Continue
                    } else if c == 'e' || c == 'E' {
                        AppAction::EditNotes
                    } else {
                        AppAction::Continue
                    }
                },
                _ => AppAction::Continue,
            }
        }
    }
}

} // verus!
