//! Decisions of the terminal view: the grid-size overlay (`cols×rows`), shown when the
//! grid changes size and for one second after it settles, and the labels of the port
//! buttons; the terminal's focus bookkeeping at the end of a frame and the clamp of
//! its scroll offset.

use vstd::prelude::*;

use crate::session::TerminalSession;
use crate::text::{decimal, push_decimal};

verus! {

/// How long the overlay stays after the grid settled, in milliseconds.
pub const SIZE_LABEL_LINGER_MS: u64 = 1000;

/// What the overlay remembers between frames. Times are milliseconds on the caller's
/// monotonic clock.
#[derive(Clone, Copy, PartialEq, Eq, Debug, Structural)]
pub struct SizeLabelState {
    /// The grid size last seen.
    pub cols: usize,
    pub rows: usize,
    /// The overlay is showing or lingering.
    pub active: bool,
    /// When the overlay hides, once the grid settled.
    pub hide_at_ms: Option<u64>,
}

/// The overlay's answer for one frame.
#[derive(Clone, Copy, PartialEq, Eq, Debug, Structural)]
pub struct SizeLabelFrame {
    /// Whether to paint the overlay.
    pub visible: bool,
    /// Whether to ask for a repaint after [`SIZE_LABEL_LINGER_MS`] (when the hiding
    /// time was just set).
    pub repaint_after_linger: bool,
}

/// The state after a frame at `now_ms` with a `cols`×`rows` grid, and the answer: a new
/// size shows the overlay (and forgets any hiding time); an inactive overlay stays
/// hidden; otherwise the first settled frame sets the hiding time one linger from now,
/// and the overlay shows until that time.
pub open spec fn size_label_step(s: SizeLabelState, cols: usize, rows: usize, now_ms: u64) -> (
    SizeLabelState,
    SizeLabelFrame,
) {
    if cols != s.cols || rows != s.rows {
        (
            SizeLabelState { cols, rows, active: true, hide_at_ms: None },
            SizeLabelFrame { visible: true, repaint_after_linger: false },
        )
    } else if !s.active {
        (s, SizeLabelFrame { visible: false, repaint_after_linger: false })
    } else {
        let deadline = match s.hide_at_ms {
            Some(t) => t,
            None => (now_ms + SIZE_LABEL_LINGER_MS) as u64,
        };
        (
            SizeLabelState { hide_at_ms: Some(deadline), ..s },
            SizeLabelFrame { visible: now_ms < deadline, repaint_after_linger: s.hide_at_ms is None },
        )
    }
}

impl SizeLabelState {
    /// No grid seen yet.
    pub fn new() -> (s: SizeLabelState)
        ensures
            s == (SizeLabelState { cols: 0, rows: 0, active: false, hide_at_ms: None }),
    {
        SizeLabelState { cols: 0, rows: 0, active: false, hide_at_ms: None }
    }
}

/// Decides whether the grid-size overlay shows in this frame (see [`size_label_step`]).
pub fn size_label_visible(state: &mut SizeLabelState, cols: usize, rows: usize, now_ms: u64) -> (f:
    SizeLabelFrame)
    requires
        now_ms <= u64::MAX - SIZE_LABEL_LINGER_MS,
    ensures
        (*final(state), f) == size_label_step(*old(state), cols, rows, now_ms),
{
    if cols != state.cols || rows != state.rows {
        state.cols = cols;
        state.rows = rows;
        state.active = true;
        state.hide_at_ms = None;
        return SizeLabelFrame { visible: true, repaint_after_linger: false };
    }
    if !state.active {
        return SizeLabelFrame { visible: false, repaint_after_linger: false };
    }
    let mut repaint = false;
    if state.hide_at_ms.is_none() {
        state.hide_at_ms = Some(now_ms + SIZE_LABEL_LINGER_MS);
        repaint = true;
    }
    let visible = match state.hide_at_ms {
        Some(deadline) => now_ms < deadline,
        None => false,
    };
    SizeLabelFrame { visible, repaint_after_linger: repaint }
}

/// The overlay text, `cols×rows`.
pub open spec fn size_label_text_spec(cols: usize, rows: usize) -> Seq<char> {
    decimal(cols as nat) + "\u{d7}"@ + decimal(rows as nat)
}

pub fn size_label_text(cols: usize, rows: usize) -> (s: String)
    ensures
        s@ == size_label_text_spec(cols, rows),
{
    let mut s = String::new();
    push_decimal(&mut s, cols as u64);
    s.append("\u{d7}");
    push_decimal(&mut s, rows as u64);
    assert(s@ =~= size_label_text_spec(cols, rows));
    s
}

/// Once the grid settles, the overlay shows for one linger and then stays hidden
/// until the grid changes size again.
pub proof fn law_size_label_hides_after_linger(
    s: SizeLabelState,
    cols: usize,
    rows: usize,
    t0: u64,
    t1: u64,
)
    requires
        s.cols == cols,
        s.rows == rows,
        s.active,
        s.hide_at_ms is None,
        t0 <= u64::MAX - SIZE_LABEL_LINGER_MS,
        t0 + SIZE_LABEL_LINGER_MS <= t1,
    ensures
        size_label_step(s, cols, rows, t0).1.visible,
        !size_label_step(size_label_step(s, cols, rows, t0).0, cols, rows, t1).1.visible,
        size_label_step(size_label_step(s, cols, rows, t0).0, cols, rows, t1).0 == size_label_step(
            s,
            cols,
            rows,
            t0,
        ).0,
{
}

/// The label of a port button: the port's name, with ` •` when it has unread output
/// and is not the port shown.
pub open spec fn port_button_label_spec(name: Seq<char>, unread: usize, selected: bool) -> Seq<char> {
    if unread > 0 && !selected {
        name + " \u{2022}"@
    } else {
        name
    }
}

pub fn port_button_label(name: &str, unread: usize, selected: bool) -> (s: String)
    ensures
        s@ == port_button_label_spec(name@, unread, selected),
{
    let mut s = String::from_str(name);
    if unread > 0 && !selected {
        s.append(" \u{2022}");
    }
    s
}

/// What the view does with the terminal widget's keyboard focus after a frame.
#[derive(Clone, Copy, PartialEq, Eq, Debug, Structural)]
pub enum FocusLock {
    /// Keep the focus on the terminal (it is the focused pane and holds the focus).
    Lock,
    /// Give the focus up, so that a text field can take the keys.
    Surrender,
    /// Leave the focus as it is.
    Keep,
}

/// End of a frame of a terminal view: while terminal input is suppressed (a text
/// field has the keys) the terminal neither had nor wants the focus, and the view
/// gives the focus up; in the focused pane the terminal had the focus exactly when
/// its widget holds it, and then the view keeps it locked there; in another pane the
/// terminal did not have the focus. `want_terminal_focus` changes only under
/// suppression.
pub fn settle_terminal_focus(
    t: &mut TerminalSession,
    suppress_input: bool,
    is_focused_pane: bool,
    has_focus: bool,
) -> (lock: FocusLock)
    ensures
        final(t).id == old(t).id,
        final(t).conn_type == old(t).conn_type,
        final(t).terminal_had_focus == (!suppress_input && is_focused_pane && has_focus),
        final(t).want_terminal_focus == (old(t).want_terminal_focus && !suppress_input),
        lock == if suppress_input {
            FocusLock::Surrender
        } else if is_focused_pane && has_focus {
            FocusLock::Lock
        } else {
            FocusLock::Keep
        },
{
    if suppress_input {
        t.terminal_had_focus = false;
        t.want_terminal_focus = false;
    } else if is_focused_pane {
        t.terminal_had_focus = has_focus;
    } else {
        t.terminal_had_focus = false;
    }
    if !suppress_input && is_focused_pane && has_focus {
        FocusLock::Lock
    } else if suppress_input {
        FocusLock::Surrender
    } else {
        FocusLock::Keep
    }
}

/// The scroll offset after the screen changed: none on the alternate screen (full-
/// screen programs such as editors), otherwise at most `max_scroll_offset` lines back.
pub fn clamp_scroll_offset(scroll_offset: usize, in_alternate_screen: bool, max_scroll_offset: usize) -> (r: usize)
    ensures
        r == if in_alternate_screen {
            0
        } else if scroll_offset < max_scroll_offset {
            scroll_offset
        } else {
            max_scroll_offset
        },
{
    if in_alternate_screen {
        0
    } else if scroll_offset < max_scroll_offset {
        scroll_offset
    } else {
        max_scroll_offset
    }
}

} // verus!
