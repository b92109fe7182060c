//! The request registry and the operator-facing layout state.
//!
//! `LayoutState` owns every captured request, the selection cursor over
//! them, the operator-created tabs, the input bar and the current pane.  A
//! tab holds an independent deep copy of its request: once detached, no
//! mutation on one side can be observed through the other.

use vstd::prelude::*;
use vstd::string::StringExecFns;

use crate::input_state::InputState;
use crate::request::{ForwardTicket, Header, HttpVersion, Request, RequestInteraction};
use crate::response_waiter::{CopyableResponse, RequestResponse};

verus! {

/// The panes of the main view.
#[derive(Clone, Copy, PartialEq, Eq, Structural, Debug)]
pub enum MainPane {
    ReqList,
    Req,
    Resp,
}

/// The main pane a pane-selection key names.
pub open spec fn main_pane_of_key(c: char) -> Option<MainPane> {
    if c == 'a' {
        Some(MainPane::ReqList)
    } else if c == 'w' {
        Some(MainPane::Req)
    } else if c == 's' {
        Some(MainPane::Resp)
    } else {
        None
    }
}

impl MainPane {
    /// Resolve a pane-selection key: `a` the request list, `w` the request,
    /// `s` the response.
    pub fn from_key(c: char) -> (r: Option<MainPane>)
        ensures
            r == main_pane_of_key(c),
    {
        match c {
            'a' => Some(MainPane::ReqList),
            'w' => Some(MainPane::Req),
            's' => Some(MainPane::Resp),
            _ => None,
        }
    }
}

/// The panes of a tab view.
#[derive(Clone, Copy, PartialEq, Eq, Structural, Debug)]
pub enum TabPane {
    Notes,
    Req,
    Resp,
}

/// The tab pane a pane-selection key names.
pub open spec fn tab_pane_of_key(c: char) -> Option<TabPane> {
    if c == 'a' {
        Some(TabPane::Notes)
    } else if c == 'w' {
        Some(TabPane::Req)
    } else if c == 's' {
        Some(TabPane::Resp)
    } else {
        None
    }
}

impl TabPane {
    /// Resolve a pane-selection key: `a` the notes, `w` the request, `s`
    /// the response.
    pub fn from_key(c: char) -> (r: Option<TabPane>)
        ensures
            r == tab_pane_of_key(c),
    {
        match c {
            'a' => Some(TabPane::Notes),
            'w' => Some(TabPane::Req),
            's' => Some(TabPane::Resp),
            _ => None,
        }
    }
}

/// Which view is active: the main view or one tab, with the focused pane
/// and that pane's scroll position.
#[derive(Clone, Copy, PartialEq, Eq, Structural, Debug)]
#[allow(inconsistent_fields)]
pub enum Pane {
    Main { scroll: usize, pane: MainPane },
    Tab { idx: usize, scroll: usize, pane: TabPane },
}

impl Default for Pane {
    /// The opening view: the main request list, unscrolled.
    fn default() -> (p: Pane)
        ensures
            p == (Pane::Main { scroll: 0usize, pane: MainPane::ReqList }),
    {
        Pane::Main { scroll: 0, pane: MainPane::ReqList }
    }
}

/// How the operator named a pane: by tab index, or by key.
#[derive(Clone, Copy, PartialEq, Eq, Structural, Debug)]
pub enum PaneSelector {
    Idx(usize),
    Key(char),
}

/// One detached tab: an independently owned copy of a request, the
/// operator's free-form notes on it, and an optional display name.
#[derive(Debug)]
pub struct Tab {
    pub req: Request,
    pub notes: String,
    pub name: Option<String>,
}

/// A freshly captured inbound request, as plain values, before the registry
/// takes ownership and assigns it an id.
#[derive(Debug)]
pub struct InboundRequest {
    pub method: String,
    pub uri: String,
    pub version: HttpVersion,
    pub headers: Vec<Header>,
    pub body: Vec<u8>,
}

/// The least index in `rs` holding the request with this id, if any.
pub open spec fn found_req(rs: Seq<Request>, id: u128) -> Option<int>
    decreases rs.len(),
{
    if rs.len() == 0 {
        None
    } else if rs[0].id == id {
        Some(0)
    } else {
        match found_req(rs.drop_first(), id) {
            None => None,
            Some(i) => Some(i + 1),
        }
    }
}

/// What `found_req` returns: no entry carries the id, or the least index
/// that does.
pub proof fn lemma_found_req(rs: Seq<Request>, id: u128)
    ensures
        match found_req(rs, id) {
            None => forall|j: int| 0 <= j < rs.len() ==> rs[j].id != id,
            Some(i) => {
                &&& 0 <= i < rs.len()
                &&& rs[i].id == id
                &&& forall|j: int| 0 <= j < i ==> rs[j].id != id
            },
        },
    decreases rs.len(),
{
    if rs.len() > 0 && rs[0].id != id {
        lemma_found_req(rs.drop_first(), id);
        assert forall|j: int|
            0 <= j < rs.len() && found_req(rs, id) is None implies rs[j].id != id by {
            if j > 0 {
                assert(rs.drop_first()[j - 1].id != id);
            }
        }
        match found_req(rs, id) {
            None => {},
            Some(i) => {
                assert(rs.drop_first()[i - 1].id == id);
                assert forall|j: int| 0 <= j < i implies rs[j].id != id by {
                    if j > 0 {
                        assert(rs.drop_first()[j - 1].id != id);
                    }
                }
            },
        }
    }
}

/// The least index in `ts` whose tab holds the request with this id.
pub open spec fn found_tab(ts: Seq<Tab>, id: u128) -> Option<int>
    decreases ts.len(),
{
    if ts.len() == 0 {
        None
    } else if ts[0].req.id == id {
        Some(0)
    } else {
        match found_tab(ts.drop_first(), id) {
            None => None,
            Some(i) => Some(i + 1),
        }
    }
}

/// What `found_tab` returns: no tab carries the id, or the least index that
/// does.
pub proof fn lemma_found_tab(ts: Seq<Tab>, id: u128)
    ensures
        match found_tab(ts, id) {
            None => forall|j: int| 0 <= j < ts.len() ==> ts[j].req.id != id,
            Some(i) => {
                &&& 0 <= i < ts.len()
                &&& ts[i].req.id == id
                &&& forall|j: int| 0 <= j < i ==> ts[j].req.id != id
            },
        },
    decreases ts.len(),
{
    if ts.len() > 0 && ts[0].req.id != id {
        lemma_found_tab(ts.drop_first(), id);
        assert forall|j: int|
            0 <= j < ts.len() && found_tab(ts, id) is None implies ts[j].req.id != id by {
            if j > 0 {
                assert(ts.drop_first()[j - 1].req.id != id);
            }
        }
        match found_tab(ts, id) {
            None => {},
            Some(i) => {
                assert(ts.drop_first()[i - 1].req.id == id);
                assert forall|j: int| 0 <= j < i implies ts[j].req.id != id by {
                    if j > 0 {
                        assert(ts.drop_first()[j - 1].req.id != id);
                    }
                }
            },
        }
    }
}

/// What the operator sees: the captured requests in arrival order with the
/// selection cursor, the detached tabs, the input bar, the active pane and
/// an error line, if one is showing.
#[derive(Debug)]
pub struct LayoutState {
    pub requests: Vec<Request>,
    pub current_req_idx: Option<usize>,
    pub tabs: Vec<Tab>,
    pub input: InputState,
    pub current_pane: Pane,
    pub err_msg: Option<String>,
}

impl Default for LayoutState {
    /// An empty registry: no requests, no selection, no tabs, the main
    /// request list active, nothing to report.
    fn default() -> (s: LayoutState)
        ensures
            s.requests@ == Seq::<Request>::empty(),
            s.current_req_idx is None,
            s.tabs@ == Seq::<Tab>::empty(),
            s.input.input@ == Seq::<char>::empty(),
            s.input.right_offset == 0,
            s.input.bounds == (0usize, 0usize),
            s.input.last_commands@ == Seq::<String>::empty(),
            s.input.tabbed_up is None,
            !s.input.selected,
            s.current_pane == (Pane::Main { scroll: 0usize, pane: MainPane::ReqList }),
            s.err_msg is None,
            s.wf(),
    {
        LayoutState {
            requests: Vec::new(),
            current_req_idx: None,
            tabs: Vec::new(),
            input: InputState::default(),
            current_pane: Pane::default(),
            err_msg: None,
        }
    }
}

impl LayoutState {
    /// Well-formedness: every held request is well-formed, the selection
    /// cursor and any active tab index point at held entries, and the input
    /// bar is well-formed.
    pub open spec fn wf(self) -> bool {
        &&& forall|i: int| 0 <= i < self.requests@.len() ==> (#[trigger] self.requests@[i]).wf()
        &&& forall|i: int| 0 <= i < self.tabs@.len() ==> (#[trigger] self.tabs@[i]).req.wf()
        &&& (self.current_req_idx matches Some(i) ==> (i as int) < self.requests@.len())
        &&& (self.current_pane matches Pane::Tab { idx, .. } ==> (idx as int) < self.tabs@.len())
        &&& self.input.wf()
    }

    /// The list of captured requests, in arrival order.
    pub fn reqs(&self) -> (r: &Vec<Request>)
        ensures
            r == &self.requests,
    {
        &self.requests
    }

    /// The selection cursor over the main request list.
    pub fn req_idx(&self) -> (r: Option<usize>)
        ensures
            r == self.current_req_idx,
    {
        self.current_req_idx
    }

    /// The request the active pane is looking at: the active tab's request,
    /// or the selected entry of the main list.
    pub open spec fn spec_current_req(self) -> Option<Request> {
        match self.current_pane {
            Pane::Tab { idx, .. } => if (idx as int) < self.tabs@.len() {
                Some(self.tabs@[idx as int].req)
            } else {
                None
            },
            Pane::Main { .. } => match self.current_req_idx {
                Some(i) => if (i as int) < self.requests@.len() {
                    Some(self.requests@[i as int])
                } else {
                    None
                },
                None => None,
            },
        }
    }

    /// Get the request the active pane is looking at, if any.
    pub fn current_req(&self) -> (r: Option<&Request>)
        ensures
            match r {
                Some(req) => self.spec_current_req() == Some(*req),
                None => self.spec_current_req() is None,
            },
    {
        match self.current_pane {
            Pane::Tab { idx, .. } => {
                if idx < self.tabs.len() {
                    Some(&self.tabs[idx].req)
                } else {
                    None
                }
            },
            Pane::Main { .. } => {
                match self.current_req_idx {
                    Some(i) => {
                        if i < self.requests.len() {
                            Some(&self.requests[i])
                        } else {
                            None
                        }
                    },
                    None => None,
                }
            },
        }
    }

    /// Append a captured request to the registry under a fresh id, handing
    /// it its decision capability; it is auto-selected only if nothing is
    /// currently selected, never stealing the operator's focus.  Returns
    /// the id under which the caller must deliver the decision and the
    /// outcome.
    pub fn add_request(&mut self, req: InboundRequest) -> (id: u128)
        requires
            old(self).wf(),
        ensures
            final(self).wf(),
            final(self).requests@.len() == old(self).requests@.len() + 1,
            final(self).requests@ == old(self).requests@.push(final(self).requests@.last()),
            ({
                let nr = final(self).requests@.last();
                &&& nr.id == id
                &&& (nr.interaction_tx matches Some(c) && c.id == id)
                &&& nr.method == req.method
                &&& nr.uri == req.uri
                &&& nr.version == req.version
                &&& nr.headers == req.headers
                &&& nr.body == req.body
                &&& nr.status == crate::request::RequestStatus::Pending
                &&& nr.resp is None
            }),
            final(self).current_req_idx == (if old(self).current_req_idx is None {
                Some(old(self).requests@.len() as usize)
            } else {
                old(self).current_req_idx
            }),
            final(self).tabs == old(self).tabs,
            final(self).input == old(self).input,
            final(self).current_pane == old(self).current_pane,
            final(self).err_msg == old(self).err_msg,
    {
        let id = crate::request::fresh_id();
        let InboundRequest { method, uri, version, headers, body } = req;
        self.requests.push(
            Request {
                id,
                interaction_tx: Some(crate::request::InteractionCapability { id }),
                method,
                uri,
                version,
                headers,
                body,
                status: crate::request::RequestStatus::Pending,
                resp: None,
            },
        );
        if self.current_req_idx.is_none() {
            self.current_req_idx = Some(self.requests.len() - 1);
        }
        id
    }

    /// How `handle_req_response` relates the registry before and after: the
    /// outcome goes to the first entry carrying its id — searched in the
    /// main list first, then across the tabs — and nowhere else; with no
    /// such entry anywhere (it was discarded while the forward was in
    /// flight) the outcome is dropped and an error line is shown, never a
    /// crash.
    pub open spec fn handle_req_response_post(
        pre: LayoutState,
        post: LayoutState,
        resp: RequestResponse,
    ) -> bool {
        &&& post.current_req_idx == pre.current_req_idx
        &&& post.input == pre.input
        &&& post.current_pane == pre.current_pane
        &&& match found_req(pre.requests@, resp.id) {
            Some(i) => {
                &&& post.requests@ == pre.requests@.update(i, post.requests@[i])
                &&& Request::store_response_post(pre.requests@[i], post.requests@[i], resp)
                &&& post.tabs == pre.tabs
                &&& post.err_msg == pre.err_msg
            },
            None => match found_tab(pre.tabs@, resp.id) {
                Some(t) => {
                    &&& post.tabs@ == pre.tabs@.update(t, post.tabs@[t])
                    &&& Request::store_response_post(pre.tabs@[t].req, post.tabs@[t].req, resp)
                    &&& post.tabs@[t].notes == pre.tabs@[t].notes
                    &&& post.tabs@[t].name == pre.tabs@[t].name
                    &&& post.requests == pre.requests
                    &&& post.err_msg == pre.err_msg
                },
                None => {
                    &&& post.requests == pre.requests
                    &&& post.tabs == pre.tabs
                    &&& (post.err_msg matches Some(m) && m@ == "no request matches the delivered outcome id"@)
                },
            },
        }
    }

    /// Store a delivered outcome with the request it belongs to, wherever
    /// that request now lives; an outcome for an id no longer present is
    /// dropped with an error line.
    #[verifier::loop_isolation(false)]
    pub fn handle_req_response(&mut self, resp: RequestResponse)
        requires
            old(self).wf(),
        ensures
            final(self).wf(),
            LayoutState::handle_req_response_post(*old(self), *final(self), resp),
    {
        proof {
            lemma_found_req(self.requests@, resp.id);
            lemma_found_tab(self.tabs@, resp.id);
        }
        let n = self.requests.len();
        let mut i: usize = 0;
        while i < n && self.requests[i].id != resp.id
            invariant
                i <= n,
                forall|j: int| 0 <= j < i ==> self.requests@[j].id != resp.id,
            decreases n - i,
        {
            i = i + 1;
        }
        if i < n {
            proof {
                match found_req(self.requests@, resp.id) {
                    None => {
                        assert(self.requests@[i as int].id != resp.id);
                    },
                    Some(f) => {
                        if f < i {
                            assert(self.requests@[f].id != resp.id);
                        }
                        if f > i {
                            assert(self.requests@[i as int].id != resp.id);
                        }
                    },
                }
            }
            let req = &mut self.requests[i];
            req.store_response(resp);
            return ;
        }
        let tn = self.tabs.len();
        let mut t: usize = 0;
        while t < tn && self.tabs[t].req.id != resp.id
            invariant
                t <= tn,
                forall|j: int| 0 <= j < t ==> self.tabs@[j].req.id != resp.id,
            decreases tn - t,
        {
            t = t + 1;
        }
        if t < tn {
            proof {
                match found_tab(self.tabs@, resp.id) {
                    None => {
                        assert(self.tabs@[t as int].req.id != resp.id);
                    },
                    Some(f) => {
                        if f < t {
                            assert(self.tabs@[f].req.id != resp.id);
                        }
                        if f > t {
                            assert(self.tabs@[t as int].req.id != resp.id);
                        }
                    },
                }
            }
            let tab = &mut self.tabs[t];
            tab.req.store_response(resp);
            return ;
        }
        self.err_msg = Some(String::from_str("no request matches the delivered outcome id"));
    }

    /// How a jump by `amt` moves the selection or the pane scroll.  On the
    /// main request list the cursor moves by `amt`, clamped at the ends and
    /// never wrapping, and a jump on an empty list does nothing; a jump
    /// from no selection selects the first entry.  On any other pane the
    /// pane's own scroll moves by `amt`, clamped below at zero.
    pub open spec fn mod_req_idx_post(pre: LayoutState, post: LayoutState, amt: int) -> bool {
        &&& post.requests == pre.requests
        &&& post.tabs == pre.tabs
        &&& post.input == pre.input
        &&& post.err_msg == pre.err_msg
        &&& match pre.current_pane {
            Pane::Main { pane: MainPane::ReqList, scroll } => {
                &&& post.current_pane == pre.current_pane
                &&& if pre.requests@.len() == 0 {
                    post.current_req_idx == pre.current_req_idx
                } else {
                    let len = pre.requests@.len() as int;
                    let nsel: int = match pre.current_req_idx {
                        None => 0,
                        Some(sel) => {
                            let moved = sel + amt;
                            let floored: int = if moved >= 0 {
                                moved
                            } else {
                                0
                            };
                            if floored < len - 1 {
                                floored
                            } else {
                                len - 1
                            }
                        },
                    };
                    post.current_req_idx matches Some(s) && s as int == nsel
                }
            },
            Pane::Main { pane, scroll } => {
                let moved = scroll + amt;
                let ns: int = if moved < 0 {
                    0
                } else if moved > usize::MAX {
                    usize::MAX as int
                } else {
                    moved
                };
                &&& post.current_req_idx == pre.current_req_idx
                &&& post.current_pane matches Pane::Main { pane: p2, scroll: s2 } && p2 == pane
                    && s2 as int == ns
            },
            Pane::Tab { idx, scroll, pane } => {
                let moved = scroll + amt;
                let ns: int = if moved < 0 {
                    0
                } else if moved > usize::MAX {
                    usize::MAX as int
                } else {
                    moved
                };
                &&& post.current_req_idx == pre.current_req_idx
                &&& post.current_pane matches Pane::Tab { idx: i2, scroll: s2, pane: p2 } && i2
                    == idx && p2 == pane && s2 as int == ns
            },
        }
    }

    /// Jump the selection (or the focused pane's scroll) by `amt`.
    fn mod_req_idx_by(&mut self, amt: isize)
        requires
            old(self).wf(),
        ensures
            final(self).wf(),
            LayoutState::mod_req_idx_post(*old(self), *final(self), amt as int),
    {
        let step: usize = if amt >= 0 {
            amt as usize
        } else if amt == isize::MIN {
            (isize::MAX as usize) + 1
        } else {
            (-amt) as usize
        };
        match self.current_pane {
            Pane::Main { pane: MainPane::ReqList, .. } => {
                if self.requests.len() == 0 {
                    return ;
                }
                let len = self.requests.len();
                let nsel: usize = match self.current_req_idx {
                    None => 0,
                    Some(sel) => {
                        if amt >= 0 {
                            let t = sel.saturating_add(step);
                            if t < len - 1 {
                                t
                            } else {
                                len - 1
                            }
                        } else {
                            let floored = if step > sel {
                                0
                            } else {
                                sel - step
                            };
                            if floored < len - 1 {
                                floored
                            } else {
                                len - 1
                            }
                        }
                    },
                };
                self.current_req_idx = Some(nsel);
            },
            Pane::Main { pane, scroll } => {
                let ns = if amt >= 0 {
                    scroll.saturating_add(step)
                } else {
                    scroll.saturating_sub(step)
                };
                self.current_pane = Pane::Main { pane, scroll: ns };
            },
            Pane::Tab { idx, pane, scroll } => {
                let ns = if amt >= 0 {
                    scroll.saturating_add(step)
                } else {
                    scroll.saturating_sub(step)
                };
                self.current_pane = Pane::Tab { idx, pane, scroll: ns };
            },
        }
    }

    /// Move one entry down the request list (or the focused pane one line),
    /// clamped at the end.
    pub fn scroll_down(&mut self)
        requires
            old(self).wf(),
        ensures
            final(self).wf(),
            LayoutState::mod_req_idx_post(*old(self), *final(self), 1),
    {
        self.mod_req_idx_by(1);
    }

    /// Move one entry up the request list (or the focused pane one line),
    /// clamped at the start.
    pub fn scroll_up(&mut self)
        requires
            old(self).wf(),
        ensures
            final(self).wf(),
            LayoutState::mod_req_idx_post(*old(self), *final(self), -1),
    {
        self.mod_req_idx_by(-1);
    }

    /// The currently viewable tabs, in creation order.
    pub fn tabs(&self) -> (r: &Vec<Tab>)
        ensures
            r == &self.tabs,
    {
        &self.tabs
    }

    /// The index of the active tab, when a tab view is active.
    pub open spec fn spec_current_tab_idx(self) -> Option<usize> {
        match self.current_pane {
            Pane::Tab { idx, .. } => Some(idx),
            Pane::Main { .. } => None,
        }
    }

    /// Get the index of the active tab, if a tab view is active.
    pub fn current_tab_idx(&self) -> (r: Option<usize>)
        ensures
            r == self.spec_current_tab_idx(),
    {
        match self.current_pane {
            Pane::Tab { idx, .. } => Some(idx),
            Pane::Main { .. } => None,
        }
    }

    /// The active tab, when a tab view is active and its index is held.
    pub open spec fn spec_current_tab(self) -> Option<Tab> {
        match self.spec_current_tab_idx() {
            Some(i) => if (i as int) < self.tabs@.len() {
                Some(self.tabs@[i as int])
            } else {
                None
            },
            None => None,
        }
    }

    /// Get the active tab, if a tab view is active.
    pub fn current_tab(&self) -> (r: Option<&Tab>)
        ensures
            match r {
                Some(t) => self.spec_current_tab() == Some(*t),
                None => self.spec_current_tab() is None,
            },
    {
        match self.current_tab_idx() {
            Some(i) => {
                if i < self.tabs.len() {
                    Some(&self.tabs[i])
                } else {
                    None
                }
            },
            None => None,
        }
    }

    /// How detaching relates the registry before and after: with nothing
    /// selected nothing happens; otherwise the selected entry is replaced
    /// in place by a content-equal copy that keeps the capability, the
    /// status and the outcome, and a new tab appears at the end of the tab
    /// list holding an independent content-equal copy with no capability,
    /// empty notes and no name.
    pub open spec fn separate_post(pre: LayoutState, post: LayoutState) -> bool {
        &&& post.current_req_idx == pre.current_req_idx
        &&& post.input == pre.input
        &&& post.current_pane == pre.current_pane
        &&& post.err_msg == pre.err_msg
        &&& match pre.current_req_idx {
            None => post.requests == pre.requests && post.tabs == pre.tabs,
            Some(i) => {
                let r0 = pre.requests@[i as int];
                let r1 = post.requests@[i as int];
                let nt = post.tabs@.last();
                &&& post.requests@ == pre.requests@.update(i as int, r1)
                &&& Request::content_eq(r0, r1)
                &&& r1.interaction_tx == r0.interaction_tx
                &&& r1.status == r0.status
                &&& r1.resp == r0.resp
                &&& post.tabs@ == pre.tabs@.push(nt)
                &&& Request::content_eq(r0, nt.req)
                &&& nt.req.interaction_tx is None
                &&& nt.req.status == r0.status
                &&& (nt.req.resp is Some <==> r0.resp is Some)
                &&& nt.notes@ == Seq::<char>::empty()
                &&& nt.name is None
            },
        }
    }

    /// Detach the selected request into a new tab: the registry keeps a
    /// content-equal copy in place (capability, status and outcome
    /// included) and the tab owns an independent copy; the two can never
    /// alias each other.
    pub fn separate_current_req(&mut self)
        requires
            old(self).wf(),
        ensures
            final(self).wf(),
            LayoutState::separate_post(*old(self), *final(self)),
    {
        match self.current_req_idx {
            None => {},
            Some(i) => {
                let req = self.requests.remove(i);
                let (store, separate) = req.get_tab_copy();
                self.requests.insert(i, store);
                proof {
                    assert(self.requests@ =~= old(self).requests@.update(
                        i as int,
                        self.requests@[i as int],
                    ));
                }
                self.tabs.push(Tab { req: separate, notes: String::new(), name: None });
            },
        }
    }

    /// The active pane.
    pub fn current_pane(&self) -> (r: &Pane)
        ensures
            r == &self.current_pane,
    {
        &self.current_pane
    }

    /// Record an error line for the operator to see.
    pub fn show_error(&mut self, err: String)
        ensures
            final(self).err_msg == Some(err),
            final(self).requests == old(self).requests,
            final(self).current_req_idx == old(self).current_req_idx,
            final(self).tabs == old(self).tabs,
            final(self).input == old(self).input,
            final(self).current_pane == old(self).current_pane,
    {
        self.err_msg = Some(err);
    }

    /// How renaming the tab at `idx` relates the registry before and
    /// after: only that tab's display name changes; every captured
    /// request, and every tab's request and notes, stays exactly as it
    /// was.  An index without a tab changes nothing.
    pub open spec fn rename_tab_at_post(
        pre: LayoutState,
        post: LayoutState,
        idx: Option<usize>,
        name: String,
        r: bool,
    ) -> bool {
        &&& post.requests == pre.requests
        &&& post.current_req_idx == pre.current_req_idx
        &&& post.input == pre.input
        &&& post.current_pane == pre.current_pane
        &&& post.err_msg == pre.err_msg
        &&& match idx {
            Some(i) => if (i as int) < pre.tabs@.len() {
                &&& r
                &&& post.tabs@ == pre.tabs@.update(i as int, post.tabs@[i as int])
                &&& post.tabs@[i as int].req == pre.tabs@[i as int].req
                &&& post.tabs@[i as int].notes == pre.tabs@[i as int].notes
                &&& post.tabs@[i as int].name == Some(name)
            } else {
                !r && post.tabs == pre.tabs
            },
            None => !r && post.tabs == pre.tabs,
        }
    }

    /// Give the tab at `idx` a display name.  Reports whether a tab took
    /// the name.
    pub fn rename_tab(&mut self, idx: usize, name: String) -> (r: bool)
        requires
            old(self).wf(),
        ensures
            final(self).wf(),
            LayoutState::rename_tab_at_post(*old(self), *final(self), Some(idx), name, r),
    {
        if idx < self.tabs.len() {
            let tab = &mut self.tabs[idx];
            tab.name = Some(name);
            true
        } else {
            false
        }
    }

    /// How renaming relates the registry before and after: the rename goes
    /// to the active tab, if a tab view is active and its index is held.
    pub open spec fn rename_tab_post(pre: LayoutState, post: LayoutState, name: String) -> bool {
        let taken = match pre.spec_current_tab_idx() {
            Some(i) => (i as int) < pre.tabs@.len(),
            None => false,
        };
        LayoutState::rename_tab_at_post(pre, post, pre.spec_current_tab_idx(), name, taken)
    }

    /// Give the active tab a display name.
    pub fn rename_current_tab(&mut self, name: String)
        requires
            old(self).wf(),
        ensures
            final(self).wf(),
            LayoutState::rename_tab_post(*old(self), *final(self), name),
    {
        match self.current_tab_idx() {
            Some(i) => {
                self.rename_tab(i, name);
            },
            None => {},
        }
    }

    /// How a notes edit on the tab at `idx` relates the registry before
    /// and after: only that tab's notes change; every captured request,
    /// and every tab's request and name, stays exactly as it was.  An
    /// index without a tab changes nothing.
    pub open spec fn set_notes_at_post(
        pre: LayoutState,
        post: LayoutState,
        idx: Option<usize>,
        notes: String,
        r: bool,
    ) -> bool {
        &&& post.requests == pre.requests
        &&& post.current_req_idx == pre.current_req_idx
        &&& post.input == pre.input
        &&& post.current_pane == pre.current_pane
        &&& post.err_msg == pre.err_msg
        &&& match idx {
            Some(i) => if (i as int) < pre.tabs@.len() {
                &&& r
                &&& post.tabs@ == pre.tabs@.update(i as int, post.tabs@[i as int])
                &&& post.tabs@[i as int].req == pre.tabs@[i as int].req
                &&& post.tabs@[i as int].name == pre.tabs@[i as int].name
                &&& post.tabs@[i as int].notes == notes
            } else {
                !r && post.tabs == pre.tabs
            },
            None => !r && post.tabs == pre.tabs,
        }
    }

    /// Replace the notes of the tab at `idx`.  Reports whether a tab took
    /// the notes.
    pub fn set_notes(&mut self, idx: usize, notes: String) -> (r: bool)
        requires
            old(self).wf(),
        ensures
            final(self).wf(),
            LayoutState::set_notes_at_post(*old(self), *final(self), Some(idx), notes, r),
    {
        if idx < self.tabs.len() {
            let tab = &mut self.tabs[idx];
            tab.notes = notes;
            true
        } else {
            false
        }
    }

    /// How a notes edit relates the registry before and after: the notes
    /// go to the active tab, if a tab view is active.
    pub open spec fn set_notes_post(
        pre: LayoutState,
        post: LayoutState,
        notes: String,
        r: bool,
    ) -> bool {
        LayoutState::set_notes_at_post(pre, post, pre.spec_current_tab_idx(), notes, r)
    }

    /// Replace the active tab's notes (the text itself comes back from the
    /// operator's external editor).  Reports whether a tab took the notes.
    pub fn set_current_tab_notes(&mut self, notes: String) -> (r: bool)
        requires
            old(self).wf(),
        ensures
            final(self).wf(),
            LayoutState::set_notes_post(*old(self), *final(self), notes, r),
    {
        match self.current_tab_idx() {
            Some(i) => self.set_notes(i, notes),
            None => false,
        }
    }

    /// How pane selection relates the registry before and after: a tab
    /// index within the tab list opens that tab at its notes; the key `m`
    /// returns to the main request list; any other key focuses the named
    /// pane of the active view; anything else is a no-op.  Only the active
    /// pane changes.
    pub open spec fn select_pane_post(
        pre: LayoutState,
        post: LayoutState,
        input: PaneSelector,
    ) -> bool {
        &&& post.requests == pre.requests
        &&& post.current_req_idx == pre.current_req_idx
        &&& post.tabs == pre.tabs
        &&& post.input == pre.input
        &&& post.err_msg == pre.err_msg
        &&& match input {
            PaneSelector::Idx(i) => if (i as int) < pre.tabs@.len() {
                post.current_pane == (Pane::Tab { idx: i, scroll: 0usize, pane: TabPane::Notes })
            } else {
                post.current_pane == pre.current_pane
            },
            PaneSelector::Key(k) => if k == 'm' {
                post.current_pane == (Pane::Main { scroll: 0usize, pane: MainPane::ReqList })
            } else {
                match pre.current_pane {
                    Pane::Tab { idx, .. } => match tab_pane_of_key(k) {
                        Some(p) => post.current_pane == (Pane::Tab {
                            idx,
                            scroll: 0usize,
                            pane: p,
                        }),
                        None => post.current_pane == pre.current_pane,
                    },
                    Pane::Main { .. } => match main_pane_of_key(k) {
                        Some(p) => post.current_pane == (Pane::Main { scroll: 0usize, pane: p }),
                        None => post.current_pane == pre.current_pane,
                    },
                }
            },
        }
    }

    /// Select a pane or a tab from the operator's input.
    pub fn select_pane_with_input(&mut self, input: PaneSelector)
        requires
            old(self).wf(),
        ensures
            final(self).wf(),
            LayoutState::select_pane_post(*old(self), *final(self), input),
    {
        match input {
            PaneSelector::Idx(i) => {
                if i < self.tabs.len() {
                    self.current_pane = Pane::Tab { idx: i, scroll: 0, pane: TabPane::Notes };
                }
            },
            PaneSelector::Key(k) => {
                if k == 'm' {
                    self.current_pane = Pane::Main { scroll: 0, pane: MainPane::ReqList };
                } else {
                    match self.current_pane {
                        Pane::Tab { idx, .. } => {
                            match TabPane::from_key(k) {
                                Some(p) => {
                                    self.current_pane = Pane::Tab { idx, scroll: 0, pane: p };
                                },
                                None => {},
                            }
                        },
                        Pane::Main { .. } => {
                            match MainPane::from_key(k) {
                                Some(p) => {
                                    self.current_pane = Pane::Main { scroll: 0, pane: p };
                                },
                                None => {},
                            }
                        },
                    }
                }
            },
        }
    }

    /// How deciding the current request relates the registry before and
    /// after: the decision is applied to the request the active pane looks
    /// at — consuming its capability at most once — and nothing else
    /// changes; with no current request, nothing happens at all.
    pub open spec fn decide_current_post(
        pre: LayoutState,
        post: LayoutState,
        interaction: RequestInteraction,
        r: Option<ForwardTicket>,
    ) -> bool {
        &&& post.current_req_idx == pre.current_req_idx
        &&& post.input == pre.input
        &&& post.current_pane == pre.current_pane
        &&& post.err_msg == pre.err_msg
        &&& match pre.current_pane {
            Pane::Tab { idx, .. } => if (idx as int) < pre.tabs@.len() {
                &&& post.requests == pre.requests
                &&& post.tabs@ == pre.tabs@.update(idx as int, post.tabs@[idx as int])
                &&& post.tabs@[idx as int].notes == pre.tabs@[idx as int].notes
                &&& post.tabs@[idx as int].name == pre.tabs@[idx as int].name
                &&& Request::send_interaction_post(
                    pre.tabs@[idx as int].req,
                    post.tabs@[idx as int].req,
                    interaction,
                    r,
                )
            } else {
                post.requests == pre.requests && post.tabs == pre.tabs && r is None
            },
            Pane::Main { .. } => match pre.current_req_idx {
                Some(i) => if (i as int) < pre.requests@.len() {
                    &&& post.tabs == pre.tabs
                    &&& post.requests@ == pre.requests@.update(i as int, post.requests@[i as int])
                    &&& Request::send_interaction_post(
                        pre.requests@[i as int],
                        post.requests@[i as int],
                        interaction,
                        r,
                    )
                } else {
                    post.requests == pre.requests && post.tabs == pre.tabs && r is None
                },
                None => post.requests == pre.requests && post.tabs == pre.tabs && r is None,
            },
        }
    }

    /// Deliver the operator's decision to the request the active pane looks
    /// at.  Returns the forward ticket exactly when the request was newly
    /// decided `Forward`; deciding an already-decided request, a detached
    /// copy, or nothing at all is a safe no-op.
    pub fn decide_current(&mut self, interaction: RequestInteraction) -> (r: Option<ForwardTicket>)
        requires
            old(self).wf(),
        ensures
            final(self).wf(),
            LayoutState::decide_current_post(*old(self), *final(self), interaction, r),
    {
        match self.current_pane {
            Pane::Tab { idx, .. } => {
                if idx < self.tabs.len() {
                    let tab = &mut self.tabs[idx];
                    tab.req.send_interaction(interaction)
                } else {
                    None
                }
            },
            Pane::Main { .. } => {
                match self.current_req_idx {
                    Some(i) => {
                        if i < self.requests.len() {
                            let req = &mut self.requests[i];
                            req.send_interaction(interaction)
                        } else {
                            None
                        }
                    },
                    None => None,
                }
            },
        }
    }

    /// How the decode command relates the registry before and after: the
    /// stored response of the request the active pane looks at is run
    /// through the idempotent gunzip transform in place; on a body that is
    /// not a gzip stream an error line is shown and nothing changes.  With
    /// no current request, no stored outcome, or an error outcome, nothing
    /// happens.
    pub open spec fn try_gunzip_current_post(pre: LayoutState, post: LayoutState) -> bool {
        &&& post.current_req_idx == pre.current_req_idx
        &&& post.input == pre.input
        &&& post.current_pane == pre.current_pane
        &&& match pre.spec_current_req() {
            None => post.requests == pre.requests && post.tabs == pre.tabs && post.err_msg
                == pre.err_msg,
            Some(r0) => match r0.resp {
                None => post.requests@ == pre.requests@ && post.tabs@ == pre.tabs@ && post.err_msg
                    == pre.err_msg,
                Some(rr) => match rr.response {
                    Err(_) => post.requests@ == pre.requests@ && post.tabs@ == pre.tabs@
                        && post.err_msg == pre.err_msg,
                    Ok(resp0) => exists|resp1: CopyableResponse, ok: bool|
                        {
                            &&& #[trigger] CopyableResponse::try_gunzip_post(resp0, resp1, ok)
                            &&& LayoutState::current_resp_replaced(pre, post, resp1)
                            &&& if ok {
                                post.err_msg == pre.err_msg
                            } else {
                                post.err_msg matches Some(m) && m@
                                    == "the stored body is not a gzip stream"@
                            }
                        },
                },
            },
        }
    }

    /// `post` is `pre` with the current request's successful response
    /// payload replaced by `resp1` and nothing else changed.
    pub open spec fn current_resp_replaced(
        pre: LayoutState,
        post: LayoutState,
        resp1: CopyableResponse,
    ) -> bool {
        match pre.current_pane {
            Pane::Tab { idx, .. } => {
                let t0 = pre.tabs@[idx as int];
                let t1 = post.tabs@[idx as int];
                &&& post.requests == pre.requests
                &&& post.tabs@ == pre.tabs@.update(idx as int, t1)
                &&& t1.notes == t0.notes
                &&& t1.name == t0.name
                &&& t1.req.id == t0.req.id
                &&& t1.req.interaction_tx == t0.req.interaction_tx
                &&& t1.req.method == t0.req.method
                &&& t1.req.uri == t0.req.uri
                &&& t1.req.version == t0.req.version
                &&& t1.req.headers == t0.req.headers
                &&& t1.req.body == t0.req.body
                &&& t1.req.status == t0.req.status
                &&& (t0.req.resp matches Some(rr0) && t1.req.resp matches Some(rr1) && rr1.id
                    == rr0.id && rr1.response == Ok::<CopyableResponse, String>(resp1))
            },
            Pane::Main { .. } => {
                let i = pre.current_req_idx->Some_0;
                let r0 = pre.requests@[i as int];
                let r1 = post.requests@[i as int];
                &&& post.tabs == pre.tabs
                &&& post.requests@ == pre.requests@.update(i as int, r1)
                &&& r1.id == r0.id
                &&& r1.interaction_tx == r0.interaction_tx
                &&& r1.method == r0.method
                &&& r1.uri == r0.uri
                &&& r1.version == r0.version
                &&& r1.headers == r0.headers
                &&& r1.body == r0.body
                &&& r1.status == r0.status
                &&& (r0.resp matches Some(rr0) && r1.resp matches Some(rr1) && rr1.id == rr0.id
                    && rr1.response == Ok::<CopyableResponse, String>(resp1))
            },
        }
    }

    /// Decompress the stored response body of the request the active pane
    /// looks at, in place and idempotently; show an error line if the body
    /// is no gzip stream.
    pub fn try_gunzip_current(&mut self)
        requires
            old(self).wf(),
        ensures
            final(self).wf(),
            LayoutState::try_gunzip_current_post(*old(self), *final(self)),
    {
        let mut failed = false;
        match self.current_pane {
            Pane::Tab { idx, .. } => {
                if idx < self.tabs.len() {
                    let tab = &mut self.tabs[idx];
                    match &mut tab.req.resp {
                        Some(rr) => {
                            match &mut rr.response {
                                Ok(resp) => {
                                    let ok = resp.try_gunzip();
                                    if !ok {
                                        failed = true;
                                    }
                                },
                                Err(_) => {},
                            }
                        },
                        None => {},
                    }
                }
            },
            Pane::Main { .. } => {
                match self.current_req_idx {
                    Some(i) => {
                        if i < self.requests.len() {
                            let req = &mut self.requests[i];
                            match &mut req.resp {
                                Some(rr) => {
                                    match &mut rr.response {
                                        Ok(resp) => {
                                            let ok = resp.try_gunzip();
                                            if !ok {
                                                failed = true;
                                            }
                                        },
                                        Err(_) => {},
                                    }
                                },
                                None => {},
                            }
                        }
                    },
                    None => {},
                }
            },
        }
        if failed {
            self.err_msg = Some(String::from_str("the stored body is not a gzip stream"));
        }
        proof {
            match old(self).spec_current_req() {
                None => {},
                Some(r0) => match r0.resp {
                    None => {
                        assert(self.requests@ =~= old(self).requests@);
                        assert(self.tabs@ =~= old(self).tabs@);
                    },
                    Some(rr) => match rr.response {
                        Err(_) => {
                            assert(self.requests@ =~= old(self).requests@);
                            assert(self.tabs@ =~= old(self).tabs@);
                        },
                        Ok(resp0) => {
                            let resp1 = match old(self).current_pane {
                                Pane::Tab { idx, .. } => self.tabs@[idx as int].req.resp->Some_0
                                    .response->Ok_0,
                                Pane::Main { .. } => self.requests@[old(
                                    self,
                                ).current_req_idx->Some_0 as int].resp->Some_0.response->Ok_0,
                            };
                            assert(CopyableResponse::try_gunzip_post(resp0, resp1, !failed));
                            assert(LayoutState::current_resp_replaced(*old(self), *self, resp1));
                        },
                    },
                },
            }
        }
    }
}

/// LAW: a detached tab and the registry's entry are independent objects.
/// Editing a tab's notes or name leaves every captured request in the main
/// list exactly as it was, and storing an outcome that lands on a main-list
/// entry leaves every tab exactly as it was; after detachment, no mutation
/// on either side can be observed through the other.
pub proof fn law_tab_and_registry_are_independent(
    s0: LayoutState,
    s1: LayoutState,
    s2: LayoutState,
    s3: LayoutState,
    notes: String,
    name: String,
    taken: bool,
    outcome: RequestResponse,
)
    requires
        LayoutState::set_notes_post(s0, s1, notes, taken),
        LayoutState::rename_tab_post(s1, s2, name),
        LayoutState::handle_req_response_post(s2, s3, outcome),
        found_req(s2.requests@, outcome.id) is Some,
    ensures
        s1.requests@ == s0.requests@,
        s2.requests@ == s0.requests@,
        s3.tabs@ == s2.tabs@,
{
}

} // verus!
