//! The application shell: the function pane on the left, the workspace on the right,
//! and what the shell keeps in step between frames.

use vstd::prelude::*;

use crate::function_pane::{
    docked_visible_spec, drag_split_enabled, overlay_visible_spec, split_enabled, FunctionPane,
    FunctionPaneView, WIDE_THRESHOLD,
};
use crate::layout_state::{
    can_draw_id, collapse_spec, layout_wf, session_of, DropZone, PaneId, ShellLayout,
    function_width_for, is_initial_shell, FUNCTION_DEFAULT_WIDTH,
};
use crate::session::{session_id_of, TerminalSession, WorkspaceSession};
use crate::messages::{
    is_empty_function_action, is_empty_workspace_action, FunctionAction, WorkspaceAction,
};
use crate::text::str_eq;

verus! {

/// The shell's layout and what it remembers between frames. `D` is what a drag in
/// progress carries.
pub struct AppShell<D> {
    pub layout: ShellLayout,
    pub function_pane: FunctionPane,
    /// The focused pane when the terminals' focus was last brought in step.
    pub last_focused_pane: Option<PaneId>,
    /// A drag in progress.
    pub active_drag: Option<D>,
    /// Where the drag in progress would drop.
    pub last_drop_zone: Option<DropZone>,
}

/// A shell as it starts, with the layout `layout`.
pub open spec fn fresh_shell<D>(s: AppShell<D>, layout: ShellLayout) -> bool {
    &&& s.layout == layout
    &&& s.function_pane@ == (FunctionPaneView { wide: false, docked_open: true, overlay_open: false })
    &&& s.last_focused_pane is None
    &&& s.active_drag is None
    &&& s.last_drop_zone is None
}

impl<D> AppShell<D> {
    /// A shell with the default layout.
    pub fn new() -> (s: AppShell<D>)
        ensures
            s.layout.function_width == FUNCTION_DEFAULT_WIDTH,
            is_initial_shell(s.layout),
            layout_wf(s.layout.workspace@),
            fresh_shell(s, s.layout),
    {
        AppShell {
            layout: ShellLayout::default(),
            function_pane: FunctionPane::new(),
            last_focused_pane: None,
            active_drag: None,
            last_drop_zone: None,
        }
    }

    /// A shell whose function pane has the saved width (see [`function_width_for`]).
    pub fn from_settings(function_pane_width: Option<u32>) -> (s: AppShell<D>)
        ensures
            s.layout.function_width == function_width_for(function_pane_width),
            is_initial_shell(s.layout),
            layout_wf(s.layout.workspace@),
            fresh_shell(s, s.layout),
    {
        AppShell {
            layout: ShellLayout::from_settings(function_pane_width),
            function_pane: FunctionPane::new(),
            last_focused_pane: None,
            active_drag: None,
            last_drop_zone: None,
        }
    }

    /// Follows the available width (in whole pixels, rounded up); see
    /// `FunctionPane::sync_width`.
    pub fn sync_width(&mut self, width: u32)
        ensures
            final(self).function_pane@ == (FunctionPaneView {
                wide: width > WIDE_THRESHOLD,
                docked_open: old(self).function_pane@.docked_open,
                overlay_open: if width > WIDE_THRESHOLD && !old(self).function_pane@.wide {
                    false
                } else {
                    old(self).function_pane@.overlay_open
                },
            }),
            final(self).layout == old(self).layout,
            final(self).last_focused_pane == old(self).last_focused_pane,
            final(self).active_drag == old(self).active_drag,
            final(self).last_drop_zone == old(self).last_drop_zone,
    {
        self.function_pane.sync_width(width);
    }

    /// Starts a drag carrying `payload` when one is requested, none is in progress and
    /// drag-to-split is allowed; otherwise nothing changes.
    pub fn begin_drag(&mut self, requested: bool, drag_split_on: bool, payload: D)
        ensures
            final(self).active_drag == (if requested && old(self).active_drag is None && drag_split_on {
                Some(payload)
            } else {
                old(self).active_drag
            }),
            final(self).layout == old(self).layout,
            final(self).function_pane == old(self).function_pane,
            final(self).last_focused_pane == old(self).last_focused_pane,
            final(self).last_drop_zone == old(self).last_drop_zone,
    {
        if requested && self.active_drag.is_none() && drag_split_on {
            self.active_drag = Some(payload);
        }
    }

    /// The session shown in the focused pane.
    pub fn focused_session_id(&self) -> (r: Option<&str>)
        requires
            layout_wf(self.layout.workspace@),
        ensures
            match r {
                Some(s) => session_of(self.layout.workspace@.panes, self.layout.workspace@.focused)
                    == Some(s@),
                None => session_of(self.layout.workspace@.panes, self.layout.workspace@.focused) is None,
            },
    {
        self.layout.workspace.focused_session_id()
    }
}

/// A session after the terminals' focus is brought in step with the focused session
/// `focused`: the terminal showing it wants keyboard focus, every other terminal
/// neither wants nor holds it; file manager sessions stay.
pub open spec fn focus_synced(s: WorkspaceSession, focused: Option<Seq<char>>) -> WorkspaceSession {
    match s {
        WorkspaceSession::Terminal(t) => {
            let active = focused == Some(t.id@);
            WorkspaceSession::Terminal(
                TerminalSession {
                    want_terminal_focus: active,
                    terminal_had_focus: if active {
                        t.terminal_had_focus
                    } else {
                        false
                    },
                    ..t
                },
            )
        },
        WorkspaceSession::FileManager(_) => s,
    }
}

/// Whether `id` is the focused session id.
fn is_focused(focused: Option<&str>, id: &str) -> (b: bool)
    ensures
        b == (match focused {
            Some(f) => Some(f@),
            None => None,
        } == Some(id@)),
{
    match focused {
        Some(f) => str_eq(f, id),
        None => false,
    }
}

impl<D> AppShell<D> {
    /// When the focused pane changed since the last call, the terminal showing the
    /// focused session takes the keyboard focus and the others give it up.
    pub fn sync_focus_change(&mut self, sessions: &mut Vec<WorkspaceSession>)
        requires
            layout_wf(old(self).layout.workspace@),
        ensures
            final(self).layout == old(self).layout,
            final(self).function_pane == old(self).function_pane,
            final(self).active_drag == old(self).active_drag,
            final(self).last_drop_zone == old(self).last_drop_zone,
            final(self).last_focused_pane == Some(old(self).layout.workspace@.focused),
            final(sessions)@.len() == old(sessions)@.len(),
            ({
                let w = old(self).layout.workspace@;
                let unchanged = old(self).last_focused_pane == Some(w.focused);
                forall|k: int|
                    0 <= k < old(sessions)@.len() ==> #[trigger] final(sessions)@[k] == if unchanged {
                        old(sessions)@[k]
                    } else {
                        focus_synced(old(sessions)@[k], session_of(w.panes, w.focused))
                    }
            }),
    {
        let current = self.layout.workspace.focused_pane;
        if let Some(last) = self.last_focused_pane {
            if last.0 == current.0 {
                return;
            }
        }
        self.last_focused_pane = Some(current);
        let focused_sid = self.layout.workspace.focused_session_id();
        let ghost focused = session_of(self.layout.workspace@.panes, self.layout.workspace@.focused);
        let ghost before = sessions@;
        let n = sessions.len();
        let mut k: usize = 0;
        while k < n
            invariant
                n == sessions@.len(),
                n == before.len(),
                k <= n,
                focused == match focused_sid {
                    Some(f) => Some(f@),
                    None => None,
                },
                forall|j: int| 0 <= j < k ==> #[trigger] sessions@[j] == focus_synced(before[j], focused),
                forall|j: int| k <= j < n ==> #[trigger] sessions@[j] == before[j],
            decreases n - k,
        {
            match &mut sessions[k] {
                WorkspaceSession::Terminal(t) => {
                    let active = is_focused(focused_sid, t.id.as_str());
                    t.want_terminal_focus = active;
                    if !active {
                        t.terminal_had_focus = false;
                    }
                },
                WorkspaceSession::FileManager(_) => {},
            }
            k = k + 1;
        }
    }

    /// Keeps the workspace within what the function pane allows: without split panes
    /// (the sidebar hidden, or fewer than two sessions) the workspace collapses to the
    /// focused pane; without drag-to-split, a drag in progress is dropped.
    pub fn sync_split_gate(&mut self, session_count: usize)
        requires
            layout_wf(old(self).layout.workspace@),
            can_draw_id(old(self).layout.workspace@),
        ensures
            layout_wf(final(self).layout.workspace@),
            final(self).function_pane == old(self).function_pane,
            ({
                let split_on = docked_visible_spec(old(self).function_pane@) && session_count >= 2;
                let collapse = !split_on && old(self).layout.workspace@.panes.len() > 1;
                &&& final(self).layout.workspace@ == if collapse {
                    collapse_spec(old(self).layout.workspace@)
                } else {
                    old(self).layout.workspace@
                }
                &&& final(self).last_focused_pane == if collapse {
                    Some(collapse_spec(old(self).layout.workspace@).focused)
                } else {
                    old(self).last_focused_pane
                }
            }),
            final(self).layout.function_width == old(self).layout.function_width,
            final(self).layout.function_page == old(self).layout.function_page,
            final(self).layout.settings_dialog_open == old(self).layout.settings_dialog_open,
            final(self).layout.help_dialog_open == old(self).layout.help_dialog_open,
            ({
                let drag_on = docked_visible_spec(old(self).function_pane@) && session_count >= 1;
                let (before, after) = (*old(self), *final(self));
                if drag_on {
                    after.active_drag == before.active_drag && after.last_drop_zone == before.last_drop_zone
                } else {
                    after.active_drag is None && after.last_drop_zone is None
                }
            }),
    {
        let split_on = split_enabled(&self.function_pane, session_count);
        let drag_on = drag_split_enabled(&self.function_pane, session_count);
        if !split_on && self.layout.workspace.pane_count() > 1 {
            self.layout.workspace.collapse_to_focused();
            self.last_focused_pane = Some(self.layout.workspace.focused_pane);
        }
        if !drag_on {
            self.active_drag = None;
            self.last_drop_zone = None;
        }
    }
}


/// Bringing the terminals' focus in step a second time changes nothing.
pub proof fn law_focus_sync_idempotent(s: WorkspaceSession, focused: Option<Seq<char>>)
    ensures
        focus_synced(focus_synced(s, focused), focused) == focus_synced(s, focused),
{
}

/// After the terminals' focus is brought in step, a terminal wants the keyboard focus
/// exactly when it shows the focused session, and one that does not show it does not
/// hold the focus either.
pub proof fn law_focus_sync_only_focused(s: WorkspaceSession, focused: Option<Seq<char>>)
    ensures
        focus_synced(s, focused) matches WorkspaceSession::Terminal(t) ==> (t.want_terminal_focus
            == (focused == Some(t.id@)) && (focused != Some(t.id@) ==> !t.terminal_had_focus)),
        session_id_of(focus_synced(s, focused)) == session_id_of(s),
{
}

/// Which columns the shell paints: the function pane when it is docked and open
/// (wide) or its overlay is open (narrow), except over a narrow settings page; the
/// workspace when wide, when the function pane is hidden, or for the settings page.
pub open spec fn shell_columns_spec(p: FunctionPaneView, settings_overlay: bool) -> (bool, bool) {
    let show_function = if p.wide {
        docked_visible_spec(p)
    } else {
        overlay_visible_spec(p)
    };
    (show_function && !(settings_overlay && !p.wide), p.wide || !show_function || settings_overlay)
}

pub fn shell_columns(pane: &FunctionPane, settings_overlay: bool) -> (r: (bool, bool))
    ensures
        r == shell_columns_spec(pane@, settings_overlay),
{
    let is_wide = pane.is_wide();
    let show_function = if is_wide {
        pane.docked_visible()
    } else {
        pane.overlay_visible()
    };
    (show_function && !(settings_overlay && !is_wide), is_wide || !show_function || settings_overlay)
}

/// Whether a function-pane action closes the overlay: toggling settings, going back,
/// connecting, opening a file manager, or selecting a session from the overlay.
pub open spec fn closes_overlay(action: FunctionAction, in_overlay: bool) -> bool {
    ||| action.toggle_settings
    ||| action.select_session is Some && in_overlay
    ||| action.go_back
    ||| action.connect_connection is Some
    ||| action.open_file_mgr is Some
}

/// Closes the function pane's overlay after an action that leaves it (see
/// [`closes_overlay`]).
pub fn close_overlay_after(pane: &mut FunctionPane, action: &FunctionAction, in_overlay: bool)
    ensures
        final(pane)@ == (if closes_overlay(*action, in_overlay) {
            FunctionPaneView { overlay_open: false, ..old(pane)@ }
        } else {
            old(pane)@
        }),
{
    if action.toggle_settings {
        pane.close_overlay();
    }
    if action.select_session.is_some() {
        if in_overlay {
            pane.close_overlay();
        }
    }
    if action.go_back || action.connect_connection.is_some() || action.open_file_mgr.is_some() {
        pane.close_overlay();
    }
}

/// What the shell hands back after a frame.
pub struct ShellRenderResult {
    pub function_action: FunctionAction,
    pub workspace_action: WorkspaceAction,
    pub settings_closed: bool,
}

impl Default for ShellRenderResult {
    fn default() -> (r: ShellRenderResult)
        ensures
            is_empty_function_action(r.function_action),
            is_empty_workspace_action(r.workspace_action),
            !r.settings_closed,
    {
        ShellRenderResult {
            function_action: FunctionAction::default(),
            workspace_action: WorkspaceAction::default(),
            settings_closed: false,
        }
    }
}

} // verus!
