//! The operator's command-line input view.
//!
//! `InputState` holds the text being typed in the bottom input bar, the
//! cursor (as an offset from the right end), and the window of the text that
//! fits the current terminal width.  Editing works on extended grapheme
//! clusters so the cursor never lands inside a multi-unit character, and the
//! display window is measured in terminal columns.  Entered text is parsed
//! into operator commands.

use vstd::math::min;
use vstd::prelude::*;
use vstd::string::StrSliceExecFns;
use vstd::string::StringExecFns;

verus! {

/// Names the extended grapheme cluster segmentation of a string: the list of
/// clusters, in order.  Segmentation is a function of the characters alone.
pub uninterp spec fn graphemes_of(s: Seq<char>) -> Seq<Seq<char>>;

/// Names the displayed width of a string, in terminal columns.  The width is
/// a function of the characters alone; it is not additive over
/// concatenation, so every width below is the width of one whole cluster.
pub uninterp spec fn width_of(s: Seq<char>) -> nat;

/// What grapheme segmentation yields: the named segmentation itself, whose
/// clusters are non-empty and concatenate back to the segmented string.
pub open spec fn graphemes_post(s: Seq<char>, r: Seq<Seq<char>>) -> bool {
    &&& r == graphemes_of(s)
    &&& r.flatten() == s
    &&& forall|i: int| 0 <= i < r.len() ==> #[trigger] r[i].len() > 0
}

/// The views of a vector of owned grapheme clusters.
pub open spec fn gviews(gs: Seq<String>) -> Seq<Seq<char>> {
    gs.map_values(|g: String| g@)
}

/// Relies on unicode-segmentation's `UnicodeSegmentation::graphemes` (with
/// extended clusters): the segmentation is a function of the string alone,
/// named `graphemes_of`; its clusters are documented to be non-empty and to
/// partition the string.
#[verifier::external_body]
fn split_graphemes(s: &str) -> (r: Vec<String>)
    ensures
        gviews(r@) == graphemes_of(s@),
        graphemes_post(s@, gviews(r@)),
{
    unicode_segmentation::UnicodeSegmentation::graphemes(s, true).map(|g| g.to_string()).collect()
}

/// Relies on unicode-width's `UnicodeWidthStr::width`: the displayed column
/// width of a string is a function of its characters alone, named `width_of`.
#[verifier::external_body]
fn display_width(s: &str) -> (r: usize)
    ensures
        r as nat == width_of(s@),
{
    unicode_width::UnicodeWidthStr::width(s)
}

/// Relies on std's `String::push`: appends the given character to the end of
/// the string.
#[verifier::external_body]
fn push_char(s: &mut String, ch: char)
    ensures
        final(s)@ == old(s)@ + seq![ch],
{
    s.push(ch);
}

/// The summed widths of a list of grapheme clusters.  This is the display
/// length used for the input bar: each cluster is measured whole, and the
/// clusters' widths are added up.
pub open spec fn widths_sum(gs: Seq<Seq<char>>) -> nat
    decreases gs.len(),
{
    if gs.len() == 0 {
        0
    } else {
        (width_of(gs[0]) + widths_sum(gs.drop_first())) as nat
    }
}

/// Sums the widths of the clusters `gs[from..to]`.  The sum is returned
/// exactly; 128 bits cannot overflow on any list a machine can hold.
fn sum_widths_range(gs: &Vec<String>, from: usize, to: usize) -> (r: u128)
    requires
        from <= to <= gs@.len(),
    ensures
        r == widths_sum(gviews(gs@).subrange(from as int, to as int)),
        r <= (to - from) as u128 * (usize::MAX as u128),
    decreases to - from,
{
    if from == to {
        proof {
            assert(gviews(gs@).subrange(from as int, to as int) =~= Seq::<Seq<char>>::empty());
        }
        0
    } else {
        let w = display_width(gs[from].as_str());
        let rest = sum_widths_range(gs, from + 1, to);
        proof {
            let whole = gviews(gs@).subrange(from as int, to as int);
            assert(whole[0] == gs@[from as int]@);
            assert(whole.drop_first() =~= gviews(gs@).subrange(from as int + 1, to as int));
            assert((to - from) * (usize::MAX as int) == (usize::MAX as int) + (to - from - 1) * (
            usize::MAX as int)) by (nonlinear_arith);
        }
        w as u128 + rest
    }
}

/// How many clusters, counted from `end` leftwards, fit strictly within
/// `maxw` columns when their widths are accumulated onto `total`: the
/// running total is increased cluster by cluster and counting stops at the
/// first cluster that makes it reach `maxw`.
pub open spec fn back_fit(gs: Seq<Seq<char>>, end: int, maxw: int, total: int) -> int
    decreases end,
{
    if end <= 0 {
        0
    } else {
        let t = total + width_of(gs[end - 1]);
        if t < maxw {
            1 + back_fit(gs, end - 1, maxw, t)
        } else {
            0
        }
    }
}

/// The count never exceeds the clusters available.
proof fn lemma_back_fit_le_end(gs: Seq<Seq<char>>, end: int, maxw: int, total: int)
    requires
        end >= 0,
    ensures
        0 <= back_fit(gs, end, maxw, total) <= end,
    decreases end,
{
    if end > 0 {
        lemma_back_fit_le_end(gs, end - 1, maxw, total + width_of(gs[end - 1]));
    }
}

/// Computes `back_fit` over the clusters' real widths.
fn back_fit_exec(gs: &Vec<String>, end: usize, maxw: usize, total: u128) -> (r: usize)
    requires
        end <= gs@.len(),
        total <= maxw as u128,
    ensures
        r as int == back_fit(gviews(gs@), end as int, maxw as int, total as int),
        r <= end,
    decreases end,
{
    if end == 0 {
        0
    } else {
        let w = display_width(gs[end - 1].as_str());
        proof {
            assert(gviews(gs@)[end - 1] == gs@[end - 1]@);
        }
        let t = total + w as u128;
        if t < maxw as u128 {
            let rest = back_fit_exec(gs, end - 1, maxw, t);
            proof {
                lemma_back_fit_le_end(gviews(gs@), end as int - 1, maxw as int, t as int);
            }
            1 + rest
        } else {
            0
        }
    }
}

/// The cursor offset after a scroll: moved right (toward the end) or left by
/// `d` clusters, clamped to the text, whose cluster count is `len`.
pub open spec fn scrolled_ro(len: int, ro: int, right: bool, d: int) -> int {
    if right {
        min(if ro - d >= 0 {
            ro - d
        } else {
            0
        }, len)
    } else {
        min(ro + d, len)
    }
}

/// The display window after a scroll, as cluster indices `(start, end)`.
/// If the whole text fits the width, everything is shown.  Otherwise the
/// window follows the cursor: a cursor left of the window moves the window
/// left; a cursor at least a full width right of the window's start pins the
/// window's end to the cursor; a window reaching past the end of the text is
/// pulled back so the text fills the width; any other window is kept, merely
/// clamped to the text.  A recomputed window start admits as many clusters
/// as fit strictly within the width, counted back from the window's end.
pub open spec fn scrolled_bounds(
    gs: Seq<Seq<char>>,
    ro: int,
    lw: int,
    b0: int,
    b1: int,
) -> (int, int) {
    let len = gs.len() as int;
    if widths_sum(gs) < lw {
        (0, len)
    } else {
        let left = len - ro;
        if left < b0 {
            let nb1 = min(len, left + lw);
            (nb1 - back_fit(gs, nb1, lw, 0), nb1)
        } else if widths_sum(gs.subrange(b0, left)) >= lw {
            (left - back_fit(gs, left, lw, 0), left)
        } else if b1 > len || (b0 > 0 && b1 >= len) {
            (len - back_fit(gs, len, lw, 0), len)
        } else {
            (min(b0, min(b1, len)), min(b1, len))
        }
    }
}

/// The window is well-formed: ordered and within the text.
proof fn lemma_scrolled_bounds_wf(gs: Seq<Seq<char>>, ro: int, lw: int, b0: int, b1: int)
    requires
        0 <= ro <= gs.len(),
        0 <= lw,
        0 <= b0,
        0 <= b1,
    ensures
        ({
            let (n0, n1) = scrolled_bounds(gs, ro, lw, b0, b1);
            0 <= n0 <= n1 <= gs.len()
        }),
{
    let len = gs.len() as int;
    let left = len - ro;
    if widths_sum(gs) >= lw {
        if left < b0 {
            let nb1 = min(len, left + lw);
            lemma_back_fit_le_end(gs, nb1, lw, 0);
        } else if widths_sum(gs.subrange(b0, left)) >= lw {
            lemma_back_fit_le_end(gs, left, lw, 0);
        } else if b1 > len || (b0 > 0 && b1 >= len) {
            lemma_back_fit_le_end(gs, len, lw, 0);
        }
    }
}

/// Concatenates the clusters `gs[from..to]` back into one string.
fn join_range(gs: &Vec<String>, from: usize, to: usize) -> (r: String)
    requires
        from <= to <= gs@.len(),
    ensures
        r@ == gviews(gs@).subrange(from as int, to as int).flatten(),
{
    broadcast use Seq::lemma_flatten_push;

    let mut r = String::new();
    let mut i: usize = from;
    proof {
        assert(gviews(gs@).subrange(from as int, from as int) =~= Seq::<Seq<char>>::empty());
        assert(Seq::<Seq<char>>::empty().flatten() =~= Seq::<char>::empty());
    }
    while i < to
        invariant
            from <= i <= to <= gs@.len(),
            r@ == gviews(gs@).subrange(from as int, i as int).flatten(),
        decreases to - i,
    {
        r.append(gs[i].as_str());
        proof {
            assert(gviews(gs@).subrange(from as int, i as int + 1) =~= gviews(gs@).subrange(
                from as int,
                i as int,
            ).push(gs@[i as int]@));
            gviews(gs@).subrange(from as int, i as int).lemma_flatten_push(gs@[i as int]@);
        }
        i = i + 1;
    }
    r
}

/// The state of the bottom input bar: the typed text, the cursor as an
/// offset from the right end (in clusters), the displayed window of the
/// text (as cluster indices), the last terminal width seen, the command
/// history with the position tabbed up to, and whether the bar has focus.
#[derive(Debug)]
pub struct InputState {
    /// The text typed into this view.
    pub input: String,
    /// The window of the text that is shown, as cluster indices.
    pub bounds: (usize, usize),
    /// The cursor's offset from the right end of the text, in clusters.
    pub right_offset: usize,
    /// The last terminal width this view was drawn at.
    pub last_width: usize,
    /// Previously entered commands, most recent first.
    pub last_commands: Vec<String>,
    /// How far up the command history the operator has tabbed.
    pub tabbed_up: Option<u16>,
    /// Whether the view has focus: whether typing goes into it.
    pub selected: bool,
}

impl Default for InputState {
    /// A fresh input bar: empty text, cursor at the end, nothing shown yet,
    /// no history, no focus.
    fn default() -> (s: InputState)
        ensures
            s.input@ == Seq::<char>::empty(),
            s.bounds == (0usize, 0usize),
            s.right_offset == 0,
            s.last_width == 0,
            s.last_commands@ == Seq::<String>::empty(),
            s.tabbed_up is None,
            !s.selected,
            s.wf(),
    {
        InputState {
            input: String::new(),
            bounds: (0, 0),
            right_offset: 0,
            last_width: 0,
            last_commands: Vec::new(),
            tabbed_up: None,
            selected: false,
        }
    }
}

impl InputState {
    /// Any history position the operator has tabbed up to points at a held
    /// command.
    pub open spec fn history_wf(self) -> bool {
        self.tabbed_up matches Some(t) ==> (t as int) < self.last_commands@.len()
    }

    /// Well-formedness: the cursor and the display window lie within the
    /// text, and any history position points at a held command.
    pub open spec fn wf(self) -> bool {
        &&& self.right_offset <= graphemes_of(self.input@).len()
        &&& self.bounds.0 <= self.bounds.1 <= graphemes_of(self.input@).len()
        &&& self.history_wf()
    }

    /// The cursor and window of `post` are those that a scroll by `d` in the
    /// given direction computes for a text reading `input`, starting from
    /// the cursor and window held in `pre`.
    pub open spec fn scroll_view_post(
        pre: InputState,
        input: Seq<char>,
        post: InputState,
        right: bool,
        d: int,
    ) -> bool {
        let gs = graphemes_of(input);
        let ro = scrolled_ro(gs.len() as int, pre.right_offset as int, right, d);
        let (n0, n1) = scrolled_bounds(
            gs,
            ro,
            pre.last_width as int,
            pre.bounds.0 as int,
            pre.bounds.1 as int,
        );
        &&& post.right_offset as int == ro
        &&& post.bounds.0 as int == n0
        &&& post.bounds.1 as int == n1
    }

    /// How `scroll` relates the state before and after: only the cursor and
    /// the window move; the cursor is shifted and clamped, and the window is
    /// recomputed around it at the last seen width.
    pub open spec fn scroll_post(pre: InputState, post: InputState, right: bool, d: int) -> bool {
        &&& post.input == pre.input
        &&& post.last_width == pre.last_width
        &&& post.last_commands == pre.last_commands
        &&& post.tabbed_up == pre.tabbed_up
        &&& post.selected == pre.selected
        &&& InputState::scroll_view_post(pre, pre.input@, post, right, d)
    }

    /// Move the cursor `distance` clusters right (toward the end of the
    /// text) or left, clamped to the text, and recompute the display window
    /// around it.  This also repairs the cursor and the window after the
    /// text itself was edited, so it is the final step of every edit.
    #[verifier::rlimit(60)]
    pub fn scroll(&mut self, right: bool, distance: usize)
        requires
            old(self).history_wf(),
        ensures
            final(self).wf(),
            InputState::scroll_post(*old(self), *final(self), right, distance as int),
            graphemes_post(final(self).input@, graphemes_of(final(self).input@)),
    {
        let gs = split_graphemes(self.input.as_str());
        let len = gs.len();
        proof {
            assert(gviews(gs@).len() == gs@.len());
        }
        if right {
            let t = if self.right_offset >= distance {
                self.right_offset - distance
            } else {
                0
            };
            self.right_offset = if t > len {
                len
            } else {
                t
            };
        } else {
            let t = self.right_offset.saturating_add(distance);
            self.right_offset = if t > len {
                len
            } else {
                t
            };
        }
        let lw = self.last_width;
        let display_len = sum_widths_range(&gs, 0, len);
        proof {
            assert(gviews(gs@).subrange(0, len as int) =~= gviews(gs@));
            lemma_scrolled_bounds_wf(
                gviews(gs@),
                self.right_offset as int,
                lw as int,
                self.bounds.0 as int,
                self.bounds.1 as int,
            );
        }
        if display_len < lw as u128 {
            self.bounds = (0, len);
        } else {
            let left = len - self.right_offset;
            if left < self.bounds.0 {
                let sum = left.saturating_add(lw);
                let nb1 = if sum > len {
                    len
                } else {
                    sum
                };
                let fit = back_fit_exec(&gs, nb1, lw, 0);
                self.bounds = (nb1 - fit, nb1);
            } else {
                let mid_width = sum_widths_range(&gs, self.bounds.0, left);
                if mid_width >= lw as u128 {
                    let fit = back_fit_exec(&gs, left, lw, 0);
                    self.bounds = (left - fit, left);
                } else if self.bounds.1 > len || (self.bounds.0 > 0 && self.bounds.1 >= len) {
                    let fit = back_fit_exec(&gs, len, lw, 0);
                    self.bounds = (len - fit, len);
                } else {
                    let nb1 = if self.bounds.1 > len {
                        len
                    } else {
                        self.bounds.1
                    };
                    let nb0 = if self.bounds.0 > nb1 {
                        nb1
                    } else {
                        self.bounds.0
                    };
                    self.bounds = (nb0, nb1);
                }
            }
        }
    }

    /// The text after typing `ch` at the cursor: the character goes between
    /// the cluster the cursor sits after and the `ro` clusters right of it.
    pub open spec fn inserted_input(s: Seq<char>, ro: int, ch: char) -> Seq<char> {
        let gs = graphemes_of(s);
        let pos = gs.len() - ro;
        gs.subrange(0, pos).flatten() + seq![ch] + gs.subrange(pos, gs.len() as int).flatten()
    }

    /// How `append_char` relates the state before and after: the character
    /// is inserted at the cursor — at a cluster boundary, so it can never
    /// land inside a multi-unit character — and the window is recomputed.
    pub open spec fn append_char_post(pre: InputState, post: InputState, ch: char) -> bool {
        let ni = InputState::inserted_input(pre.input@, pre.right_offset as int, ch);
        &&& post.input@ == ni
        &&& post.last_width == pre.last_width
        &&& post.last_commands == pre.last_commands
        &&& post.tabbed_up == pre.tabbed_up
        &&& post.selected == pre.selected
        &&& InputState::scroll_view_post(pre, ni, post, true, 0)
    }

    /// Insert `ch` at the cursor, working on whole grapheme clusters, and
    /// recompute the display window.
    pub fn append_char(&mut self, ch: char)
        requires
            old(self).wf(),
        ensures
            final(self).wf(),
            InputState::append_char_post(*old(self), *final(self), ch),
    {
        let gs = split_graphemes(self.input.as_str());
        let len = gs.len();
        proof {
            assert(gviews(gs@).len() == gs@.len());
        }
        let pos = len - self.right_offset;
        let mut s = join_range(&gs, 0, pos);
        push_char(&mut s, ch);
        let tail = join_range(&gs, pos, len);
        s.append(tail.as_str());
        self.input = s;
        self.scroll(true, 0);
    }

    /// The text after a backspace at the cursor: the whole cluster just
    /// left of the cursor is removed.
    pub open spec fn backspaced_input(s: Seq<char>, ro: int) -> Seq<char> {
        let gs = graphemes_of(s);
        let pos = gs.len() - ro - 1;
        gs.subrange(0, pos).flatten() + gs.subrange(pos + 1, gs.len() as int).flatten()
    }

    /// How `handle_backspace` relates the state before and after: with the
    /// cursor at the far left nothing is deleted; otherwise the cluster left
    /// of the cursor goes, whole, and the window is recomputed.
    pub open spec fn backspace_post(pre: InputState, post: InputState) -> bool {
        let gs = graphemes_of(pre.input@);
        let ni = if gs.len() > pre.right_offset {
            InputState::backspaced_input(pre.input@, pre.right_offset as int)
        } else {
            pre.input@
        };
        &&& post.input@ == ni
        &&& post.last_width == pre.last_width
        &&& post.last_commands == pre.last_commands
        &&& post.tabbed_up == pre.tabbed_up
        &&& post.selected == pre.selected
        &&& InputState::scroll_view_post(pre, ni, post, false, 0)
    }

    /// Delete the whole grapheme cluster left of the cursor, if there is
    /// one, and recompute the display window.
    pub fn handle_backspace(&mut self)
        requires
            old(self).wf(),
        ensures
            final(self).wf(),
            InputState::backspace_post(*old(self), *final(self)),
    {
        let gs = split_graphemes(self.input.as_str());
        let len = gs.len();
        proof {
            assert(gviews(gs@).len() == gs@.len());
        }
        if len > self.right_offset {
            let pos = len - self.right_offset - 1;
            let mut s = join_range(&gs, 0, pos);
            let tail = join_range(&gs, pos + 1, len);
            s.append(tail.as_str());
            self.input = s;
        }
        self.scroll(false, 0);
    }

    /// How `handle_escape` relates the state before and after: the text is
    /// cleared, the cursor and window return to the start, and the bar
    /// loses focus.
    pub open spec fn escape_post(pre: InputState, post: InputState) -> bool {
        &&& post.input@ == Seq::<char>::empty()
        &&& post.right_offset == 0
        &&& post.bounds == (0usize, 0usize)
        &&& !post.selected
        &&& post.last_width == pre.last_width
        &&& post.last_commands == pre.last_commands
        &&& post.tabbed_up == pre.tabbed_up
    }

    /// Clear the text, reset the cursor and window, and drop focus.
    pub fn handle_escape(&mut self)
        requires
            old(self).wf(),
        ensures
            final(self).wf(),
            InputState::escape_post(*old(self), *final(self)),
    {
        self.input = String::new();
        self.right_offset = 0;
        self.scroll(false, 0);
        self.selected = false;
        proof {
            lemma_empty_graphemes(graphemes_of(self.input@));
        }
    }

    /// How `match_frame` relates the state before and after: at an
    /// unchanged width nothing happens; at a new width the window is pinned
    /// with its end at the cursor and as many clusters before it as the
    /// width admits, counting one column per cluster.
    pub open spec fn match_frame_post(pre: InputState, post: InputState, width: int) -> bool {
        if pre.last_width == width {
            post == pre
        } else {
            let len = graphemes_of(pre.input@).len() as int;
            let b1 = len - pre.right_offset;
            let b0 = if b1 - width >= 0 {
                b1 - width
            } else {
                0
            };
            &&& post.input == pre.input
            &&& post.right_offset == pre.right_offset
            &&& post.last_commands == pre.last_commands
            &&& post.tabbed_up == pre.tabbed_up
            &&& post.selected == pre.selected
            &&& post.last_width == width
            &&& post.bounds.0 as int == b0
            &&& post.bounds.1 as int == b1
        }
    }

    /// What is left of a typed path fragment from position `i` on, with the
    /// quoting state given: a backslash escapes the next character, a
    /// double quote toggles quoting, an unescaped unquoted space ends the
    /// fragment, and every other character belongs to the path.
    pub open spec fn typed_file_from(s: Seq<char>, i: int, in_quotes: bool, escaped: bool) -> Seq<
        char,
    >
        decreases s.len() - i,
    {
        if i < 0 || i >= s.len() {
            Seq::<char>::empty()
        } else {
            let c = s[i];
            if c == '\\' && !escaped {
                Self::typed_file_from(s, i + 1, in_quotes, true)
            } else if c == ' ' && !(escaped || in_quotes) {
                Seq::<char>::empty()
            } else if c == '"' && !escaped {
                Self::typed_file_from(s, i + 1, !in_quotes, false)
            } else {
                seq![c] + Self::typed_file_from(s, i + 1, in_quotes, false)
            }
        }
    }

    /// The first partial file path a typed string holds, spaces escapable
    /// with backslashes and quotes.
    pub open spec fn typed_file_of(s: Seq<char>) -> Seq<char> {
        Self::typed_file_from(s, 0, false, false)
    }

    /// Extract the first partial file path the operator has typed, honouring
    /// backslash escapes and double quotes.
    pub fn get_typed_file(input: &str) -> (r: String)
        ensures
            r@ == Self::typed_file_of(input@),
    {
        let n = input.unicode_len();
        let mut r = String::new();
        let mut i: usize = 0;
        let mut in_quotes = false;
        let mut escaped = false;
        let mut done = false;
        while i < n && !done
            invariant
                i <= n,
                n == input@.len(),
                !done ==> r@ + Self::typed_file_from(input@, i as int, in_quotes, escaped)
                    == Self::typed_file_of(input@),
                done ==> r@ == Self::typed_file_of(input@),
            decreases n - i,
        {
            let c = input.get_char(i);
            if c == '\\' && !escaped {
                escaped = true;
            } else if c == ' ' && !(escaped || in_quotes) {
                done = true;
            } else if c == '"' && !escaped {
                in_quotes = !in_quotes;
            } else {
                escaped = false;
                push_char(&mut r, c);
            }
            i = i + 1;
        }
        r
    }

    /// The typed text begins `:s ` or `:S `: the operator is giving a path
    /// to save the session to.
    pub open spec fn is_save_prefix(s: Seq<char>) -> bool {
        s.len() >= 3 && s[0] == ':' && (s[1] == 's' || s[1] == 'S') && s[2] == ' '
    }

    /// How `handle_tab` relates the state before and after, with the
    /// returned completion request: on a save command the typed path
    /// fragment after the prefix is handed back for completion and nothing
    /// changes; on any other text a literal tab is appended at the end.
    pub open spec fn tab_post(pre: InputState, post: InputState, r: Option<String>) -> bool {
        if Self::is_save_prefix(pre.input@) {
            &&& post == pre
            &&& match r {
                Some(p) => p@ == Self::typed_file_of(
                    pre.input@.subrange(3, pre.input@.len() as int),
                ),
                None => false,
            }
        } else {
            let ni = pre.input@ + seq!['\t'];
            &&& r is None
            &&& post.input@ == ni
            &&& post.last_width == pre.last_width
            &&& post.last_commands == pre.last_commands
            &&& post.tabbed_up == pre.tabbed_up
            &&& post.selected == pre.selected
            &&& InputState::scroll_view_post(pre, ni, post, true, 0)
        }
    }

    /// On a save command, hand back the typed path fragment so the caller
    /// can complete it against the file system; otherwise type a literal
    /// tab.
    pub fn handle_tab(&mut self) -> (r: Option<String>)
        requires
            old(self).wf(),
        ensures
            final(self).wf(),
            InputState::tab_post(*old(self), *final(self), r),
    {
        let n = self.input.as_str().unicode_len();
        let is_save = n >= 3 && self.input.as_str().get_char(0) == ':' && (
        self.input.as_str().get_char(1) == 's' || self.input.as_str().get_char(1) == 'S')
            && self.input.as_str().get_char(2) == ' ';
        if is_save {
            let rest = self.input.as_str().substring_char(3, n);
            Some(Self::get_typed_file(rest))
        } else {
            push_char(&mut self.input, '\t');
            self.scroll(true, 0);
            None
        }
    }

    /// Replace the typed text with a completed path and recompute the
    /// display window around the clamped cursor.
    pub fn apply_completion(&mut self, completed: String)
        requires
            old(self).wf(),
        ensures
            final(self).wf(),
            final(self).input == completed,
            final(self).last_width == old(self).last_width,
            final(self).last_commands == old(self).last_commands,
            final(self).tabbed_up == old(self).tabbed_up,
            final(self).selected == old(self).selected,
            InputState::scroll_view_post(*old(self), completed@, *final(self), true, 0),
    {
        self.input = completed;
        self.scroll(true, 0);
    }

    /// The text and history position after tabbing through the command
    /// history: tabbing up moves to the next older command, if any; tabbing
    /// down moves back and, below the newest, restores an empty line.
    pub open spec fn changed_command(
        cmds: Seq<String>,
        input: Seq<char>,
        t: Option<u16>,
        up: bool,
    ) -> (Seq<char>, Option<u16>) {
        if up {
            match t {
                None => if cmds.len() > 0 {
                    (cmds[0]@, Some(0u16))
                } else {
                    (input, None)
                },
                Some(tu) => if tu < u16::MAX && tu as int + 1 < cmds.len() {
                    (cmds[tu as int + 1]@, Some((tu + 1) as u16))
                } else {
                    (input, Some(tu))
                },
            }
        } else {
            match t {
                None => (input, None),
                Some(tu) => if tu == 0 {
                    (Seq::<char>::empty(), None)
                } else {
                    (cmds[tu as int - 1]@, Some((tu - 1) as u16))
                },
            }
        }
    }

    /// How `change_command` relates the state before and after: the chosen
    /// history entry (or restored empty line) becomes the text, the history
    /// position follows, and the window is recomputed.
    pub open spec fn change_command_post(pre: InputState, post: InputState, up: bool) -> bool {
        let (ni, nt) = Self::changed_command(pre.last_commands@, pre.input@, pre.tabbed_up, up);
        &&& post.input@ == ni
        &&& post.tabbed_up == nt
        &&& post.last_width == pre.last_width
        &&& post.last_commands == pre.last_commands
        &&& post.selected == pre.selected
        &&& InputState::scroll_view_post(pre, ni, post, false, 0)
    }

    /// Tab up (to older) or down (to newer) through the entered-command
    /// history.
    pub fn change_command(&mut self, up: bool)
        requires
            old(self).wf(),
        ensures
            final(self).wf(),
            InputState::change_command_post(*old(self), *final(self), up),
    {
        if up {
            match self.tabbed_up {
                None => {
                    if self.last_commands.len() > 0 {
                        self.tabbed_up = Some(0);
                        self.input = self.last_commands[0].clone();
                    }
                },
                Some(tu) => {
                    if tu < u16::MAX && (tu as usize) + 1 < self.last_commands.len() {
                        self.tabbed_up = Some(tu + 1);
                        self.input = self.last_commands[(tu as usize) + 1].clone();
                    }
                },
            }
        } else {
            match self.tabbed_up {
                None => {},
                Some(tu) => {
                    if tu == 0 {
                        self.input = String::new();
                        self.tabbed_up = None;
                    } else {
                        self.input = self.last_commands[(tu as usize) - 1].clone();
                        self.tabbed_up = Some(tu - 1);
                    }
                },
            }
        }
        self.scroll(false, 0);
    }

    /// How `entered_command` relates the state before and after, with the
    /// returned command: the line is taken and parsed, the bar is cleared
    /// and loses focus.
    pub open spec fn entered_post(pre: InputState, post: InputState, r: Option<
        InputCommand,
    >) -> bool {
        &&& post.input@ == Seq::<char>::empty()
        &&& post.right_offset == 0
        &&& post.bounds == (0usize, 0usize)
        &&& !post.selected
        &&& post.last_width == pre.last_width
        &&& post.last_commands == pre.last_commands
        &&& post.tabbed_up == pre.tabbed_up
        &&& match r {
            None => command_of(pre.input@) is NoCommand,
            Some(InputCommand::SaveSession(p)) => command_of(pre.input@)
                == ParsedCommand::SaveSession(p@),
            Some(InputCommand::SelectTab(i)) => command_of(pre.input@) == ParsedCommand::SelectTab(
                i as int,
            ),
            Some(InputCommand::Quit) => command_of(pre.input@) is Quit,
        }
    }

    /// Take the typed line, clear and unfocus the bar, and parse the line
    /// into a command, if it holds one.
    pub fn entered_command(&mut self) -> (r: Option<InputCommand>)
        requires
            old(self).wf(),
        ensures
            final(self).wf(),
            InputState::entered_post(*old(self), *final(self), r),
    {
        let taken = self.input.clone();
        self.input = String::new();
        self.right_offset = 0;
        self.scroll(false, 0);
        self.selected = false;
        proof {
            lemma_empty_graphemes(graphemes_of(self.input@));
        }
        let s = taken.as_str();
        let n = s.unicode_len();
        let k = find_space_exec(s, 0);
        let ghost cmd = s@.subrange(0, k as int);
        if k == 2 && s.get_char(0) == ':' && (s.get_char(1) == 's' || s.get_char(1) == 'S') {
            if k < n {
                let k2 = find_space_exec(s, k + 1);
                let arg = s.substring_char(k + 1, k2);
                Some(InputCommand::SaveSession(String::from_str(arg)))
            } else {
                None
            }
        } else if k == 2 && s.get_char(0) == ':' && (s.get_char(1) == 'q' || s.get_char(1)
            == 'Q') {
            Some(InputCommand::Quit)
        } else if k > 0 {
            if s.get_char(0) != ':' {
                None
            } else {
                proof {
                    assert(cmd.subrange(1, cmd.len() as int) =~= s@.subrange(1, k as int));
                }
                match parse_index_exec(s, 1, k) {
                    Some(i) => Some(InputCommand::SelectTab(i)),
                    None => None,
                }
            }
        } else {
            None
        }
    }

    /// How `route_keycode` relates the state before and after, with the
    /// returned effect: each key runs the editing operation it stands for,
    /// and only enter (a command) and tab over a save command (a completion
    /// request) ask anything of the caller.
    pub open spec fn route_post(
        pre: InputState,
        post: InputState,
        code: InputKey,
        r: InputEffect,
    ) -> bool {
        match code {
            InputKey::Backspace => InputState::backspace_post(pre, post) && r is Nothing,
            InputKey::Esc => InputState::escape_post(pre, post) && r is Nothing,
            InputKey::Tab => match r {
                InputEffect::CompleteFile(p) => InputState::tab_post(pre, post, Some(p)),
                InputEffect::Nothing => InputState::tab_post(pre, post, None),
                InputEffect::Command(_) => false,
            },
            InputKey::Up => InputState::change_command_post(pre, post, true) && r is Nothing,
            InputKey::Down => InputState::change_command_post(pre, post, false) && r is Nothing,
            InputKey::Left => InputState::scroll_post(pre, post, false, 1) && r is Nothing,
            InputKey::Right => InputState::scroll_post(pre, post, true, 1) && r is Nothing,
            InputKey::Char(c) => InputState::append_char_post(pre, post, c) && r is Nothing,
            InputKey::Enter => match r {
                InputEffect::Command(cmd) => InputState::entered_post(pre, post, Some(cmd)),
                InputEffect::Nothing => InputState::entered_post(pre, post, None),
                InputEffect::CompleteFile(_) => false,
            },
            InputKey::Ctrl(_) | InputKey::Other => post == pre && r is Nothing,
        }
    }

    /// Route one key press to the editing operation it stands for, and hand
    /// back whatever the press asks of the caller: a parsed command on
    /// enter, a path-completion request on tab over a save command, nothing
    /// otherwise.
    pub fn route_keycode(&mut self, code: InputKey) -> (r: InputEffect)
        requires
            old(self).wf(),
        ensures
            final(self).wf(),
            InputState::route_post(*old(self), *final(self), code, r),
    {
        match code {
            InputKey::Backspace => {
                self.handle_backspace();
                InputEffect::Nothing
            },
            InputKey::Esc => {
                self.handle_escape();
                InputEffect::Nothing
            },
            InputKey::Tab => {
                match self.handle_tab() {
                    Some(p) => InputEffect::CompleteFile(p),
                    None => InputEffect::Nothing,
                }
            },
            InputKey::Up => {
                self.change_command(true);
                InputEffect::Nothing
            },
            InputKey::Down => {
                self.change_command(false);
                InputEffect::Nothing
            },
            InputKey::Left => {
                self.scroll(false, 1);
                InputEffect::Nothing
            },
            InputKey::Right => {
                self.scroll(true, 1);
                InputEffect::Nothing
            },
            InputKey::Char(c) => {
                self.append_char(c);
                InputEffect::Nothing
            },
            InputKey::Enter => {
                match self.entered_command() {
                    Some(cmd) => InputEffect::Command(cmd),
                    None => InputEffect::Nothing,
                }
            },
            InputKey::Ctrl(_) | InputKey::Other => InputEffect::Nothing,
        }
    }

    /// Adopt a new terminal width: remember it and re-pin the display
    /// window at the cursor so the next draw looks right.
    pub fn match_frame(&mut self, width: usize)
        requires
            old(self).wf(),
        ensures
            final(self).wf(),
            InputState::match_frame_post(*old(self), *final(self), width as int),
    {
        if self.last_width != width {
            self.last_width = width;
            let gs = split_graphemes(self.input.as_str());
            let len = gs.len();
            proof {
                assert(gviews(gs@).len() == gs@.len());
            }
            let b1 = len - self.right_offset;
            let b0 = if b1 >= width {
                b1 - width
            } else {
                0
            };
            self.bounds = (b0, b1);
        }
    }
}

/// A command the operator entered at the input bar.
#[derive(Debug)]
pub enum InputCommand {
    /// `:s <path>` / `:S <path>`: write the session document to the path.
    SaveSession(String),
    /// `:<n>`: select the `n`-th tab.
    SelectTab(usize),
    /// `:q` / `:Q`: quit.
    Quit,
}

/// A key press, as the input bar sees it.
#[derive(Clone, Copy, PartialEq, Eq, Structural, Debug)]
pub enum InputKey {
    Backspace,
    Esc,
    Tab,
    Up,
    Down,
    Left,
    Right,
    Enter,
    Char(char),
    Ctrl(char),
    Other,
}

/// What a key press routed into the input bar asks of the caller: nothing, a
/// parsed command, or a file-path completion of the typed fragment (path
/// completion reads the file system, which is the caller's business).
#[derive(Debug)]
pub enum InputEffect {
    Nothing,
    Command(InputCommand),
    CompleteFile(String),
}

/// The spec-level image of a parsed command line.
pub enum ParsedCommand {
    SaveSession(Seq<char>),
    SelectTab(int),
    Quit,
    NoCommand,
}

/// The first index at or after `i` holding a space, or the length.
pub open spec fn find_space(s: Seq<char>, i: int) -> int
    decreases s.len() - i,
{
    if i < 0 || i >= s.len() {
        s.len() as int
    } else if s[i] == ' ' {
        i
    } else {
        find_space(s, i + 1)
    }
}

/// The character is a decimal digit.
pub open spec fn is_digit(c: char) -> bool {
    48 <= c as u32 <= 57
}

/// Every character in the sequence is a decimal digit.
pub open spec fn all_digits(s: Seq<char>) -> bool {
    forall|i: int| 0 <= i < s.len() ==> is_digit(#[trigger] s[i])
}

/// The value of a sequence of decimal digits.
pub open spec fn digits_value(s: Seq<char>) -> int
    decreases s.len(),
{
    if s.len() == 0 {
        0
    } else {
        digits_value(s.drop_last()) * 10 + (s.last() as u32 - 48)
    }
}

/// The tab index a `:<n>` argument names: an optional leading `+`, then at
/// least one digit, valued within `usize`; anything else is no index.
pub open spec fn parsed_index(s: Seq<char>) -> Option<int> {
    let d = if s.len() > 0 && s[0] == '+' {
        s.drop_first()
    } else {
        s
    };
    if d.len() > 0 && all_digits(d) && digits_value(d) <= usize::MAX as int {
        Some(digits_value(d))
    } else {
        None
    }
}

/// The command a finished input line holds.  The word before the first
/// space selects the command: `:s`/`:S` takes the next word as the path to
/// save to (and is no command without one), `:q`/`:Q` quits, and any other
/// word that begins with `:` and continues with a tab index selects that
/// tab; everything else is no command.
pub open spec fn command_of(s: Seq<char>) -> ParsedCommand {
    let k = find_space(s, 0);
    let cmd = s.subrange(0, k);
    if cmd.len() == 2 && cmd[0] == ':' && (cmd[1] == 's' || cmd[1] == 'S') {
        if k < s.len() {
            ParsedCommand::SaveSession(s.subrange(k + 1, find_space(s, k + 1)))
        } else {
            ParsedCommand::NoCommand
        }
    } else if cmd.len() == 2 && cmd[0] == ':' && (cmd[1] == 'q' || cmd[1] == 'Q') {
        ParsedCommand::Quit
    } else if cmd.len() > 0 {
        if cmd[0] != ':' {
            ParsedCommand::NoCommand
        } else {
            match parsed_index(cmd.subrange(1, cmd.len() as int)) {
                Some(i) => ParsedCommand::SelectTab(i),
                None => ParsedCommand::NoCommand,
            }
        }
    } else {
        ParsedCommand::NoCommand
    }
}

/// The digits of a non-negative value.
proof fn lemma_digits_value_nonneg(s: Seq<char>)
    requires
        all_digits(s),
    ensures
        digits_value(s) >= 0,
    decreases s.len(),
{
    if s.len() > 0 {
        assert(all_digits(s.drop_last()));
        lemma_digits_value_nonneg(s.drop_last());
    }
}

/// Reading more digits never shrinks the value: the whole sequence is worth
/// at least any of its prefixes.
proof fn lemma_digits_value_extend(s: Seq<char>, m: int)
    requires
        all_digits(s),
        0 <= m <= s.len(),
    ensures
        digits_value(s) >= digits_value(s.subrange(0, m)),
    decreases s.len() - m,
{
    if m == s.len() {
        assert(s.subrange(0, m) =~= s);
    } else {
        lemma_digits_value_extend(s, m + 1);
        assert(s.subrange(0, m + 1).drop_last() =~= s.subrange(0, m));
        assert(all_digits(s.subrange(0, m)));
        lemma_digits_value_nonneg(s.subrange(0, m));
        assert(digits_value(s.subrange(0, m + 1)) == digits_value(s.subrange(0, m)) * 10 + (
        s.subrange(0, m + 1).last() as u32 - 48));
    }
}

/// Finds the first space at or after `from`.
fn find_space_exec(s: &str, from: usize) -> (r: usize)
    requires
        from <= s@.len(),
    ensures
        r as int == find_space(s@, from as int),
        from <= r <= s@.len(),
        r < s@.len() ==> s@[r as int] == ' ',
        forall|j: int| from <= j < r ==> s@[j] != ' ',
    decreases s@.len() - from,
{
    let n = s.unicode_len();
    if from == n {
        from
    } else {
        let c = s.get_char(from);
        if c == ' ' {
            from
        } else {
            find_space_exec(s, from + 1)
        }
    }
}

/// Parses the characters `s[from..to]` as a tab index: an optional leading
/// `+`, then decimal digits valued within `usize`.
#[verifier::loop_isolation(false)]
fn parse_index_exec(s: &str, from: usize, to: usize) -> (r: Option<usize>)
    requires
        from <= to <= s@.len(),
    ensures
        match (r, parsed_index(s@.subrange(from as int, to as int))) {
            (Some(v), Some(i)) => v as int == i,
            (None, None) => true,
            _ => false,
        },
{
    let ghost whole = s@.subrange(from as int, to as int);
    let start: usize = if from < to && s.get_char(from) == '+' {
        from + 1
    } else {
        from
    };
    let ghost d = s@.subrange(start as int, to as int);
    proof {
        if from < to && s@[from as int] == '+' {
            assert(whole.drop_first() =~= d);
        } else {
            assert(whole =~= d);
        }
        assert((if whole.len() > 0 && whole[0] == '+' {
            whole.drop_first()
        } else {
            whole
        }) == d);
    }
    if start == to {
        return None;
    }
    let mut acc: usize = 0;
    let mut j: usize = start;
    while j < to
        invariant
            start <= j <= to <= s@.len(),
            d == s@.subrange(start as int, to as int),
            start < to,
            all_digits(s@.subrange(start as int, j as int)),
            acc as int == digits_value(s@.subrange(start as int, j as int)),
        decreases to - j,
    {
        let c = s.get_char(j);
        let cv = c as u32;
        if cv < 48 || cv > 57 {
            proof {
                assert((if whole.len() > 0 && whole[0] == '+' {
                    whole.drop_first()
                } else {
                    whole
                }) == d);
                assert(d[j - start] == s@[j as int]);
                assert(!is_digit(d[j - start]));
                assert(!all_digits(d));
                assert(parsed_index(whole) is None);
            }
            return None;
        }
        let digit = (cv - 48) as usize;
        let next = match acc.checked_mul(10) {
            Some(m) => m.checked_add(digit),
            None => None,
        };
        proof {
            assert(s@.subrange(start as int, j as int + 1).drop_last() =~= s@.subrange(
                start as int,
                j as int,
            ));
            assert(s@.subrange(start as int, j as int + 1).last() == s@[j as int]);
        }
        match next {
            Some(v) => {
                acc = v;
            },
            None => {
                proof {
                    assert((if whole.len() > 0 && whole[0] == '+' {
                        whole.drop_first()
                    } else {
                        whole
                    }) == d);
                    let pre = s@.subrange(start as int, j as int + 1);
                    assert(digits_value(pre) == acc * 10 + (s@[j as int] as u32 - 48));
                    if all_digits(d) {
                        assert(pre =~= d.subrange(0, j - start + 1));
                        lemma_digits_value_extend(d, j - start + 1);
                        assert(digits_value(pre) > usize::MAX as int);
                        assert(digits_value(d) > usize::MAX as int);
                    }
                    assert(parsed_index(whole) is None);
                }
                return None;
            },
        }
        j = j + 1;
    }
    proof {
        assert((if whole.len() > 0 && whole[0] == '+' {
            whole.drop_first()
        } else {
            whole
        }) == d);
        assert(s@.subrange(start as int, to as int) =~= d);
        assert(parsed_index(whole) == Some(digits_value(d)));
    }
    Some(acc)
}

/// A segmentation of the empty string holds no clusters: each cluster is
/// non-empty, and together they concatenate to nothing.
proof fn lemma_empty_graphemes(gs: Seq<Seq<char>>)
    requires
        graphemes_post(Seq::<char>::empty(), gs),
    ensures
        gs.len() == 0,
        widths_sum(gs) == 0,
{
    if gs.len() > 0 {
        gs.lemma_flatten_and_flatten_alt_are_equivalent();
        gs.lemma_flatten_length_ge_single_element_length(0);
    }
}

} // verus!
