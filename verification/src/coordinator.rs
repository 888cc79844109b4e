//! Shell coordinator — applies actions from the function and workspace panes to the
//! shell layout.

use vstd::prelude::*;

use crate::layout_laws::lemma_with_session;
use crate::layout_state::{
    assign_spec, clear_spec, first_session_index, has_pane, hide_spec, layout_wf,
    lemma_first_session_index, lemma_pane_index, pane_for_session_spec, session_of, LayoutView,
    PaneId, ShellLayout,
};
use crate::messages::{FunctionAction, WorkspaceAction};

verus! {

/// Selecting session `s`: the pane that shows it gets the focus; when none does, the
/// focused pane starts showing it.
pub open spec fn select_session_spec(v: LayoutView, s: Seq<char>) -> LayoutView {
    match pane_for_session_spec(v.panes, s) {
        Some(p) => LayoutView { focused: p, ..v },
        None => assign_spec(v, v.focused, Some(s)),
    }
}

/// What a function-pane action does to the workspace: a selection first, then a close.
pub open spec fn apply_function_spec(v: LayoutView, action: FunctionAction) -> LayoutView {
    let v1 = match action.select_session {
        Some(s) => select_session_spec(v, s@),
        None => v,
    };
    match action.close_session {
        Some(s) => clear_spec(v1, s@, None),
        None => v1,
    }
}

/// What a workspace-pane action does to the workspace: a focus change first, then a
/// minimize.
pub open spec fn apply_workspace_spec(v: LayoutView, action: WorkspaceAction) -> LayoutView {
    let v1 = match action.focus_pane {
        Some(p) => LayoutView { focused: p, ..v },
        None => v,
    };
    match action.minimize_pane {
        Some(p) => hide_spec(v1, p).0,
        None => v1,
    }
}

/// The shell fields besides the workspace are the same in both layouts.
pub open spec fn same_shell_chrome(a: ShellLayout, b: ShellLayout) -> bool {
    &&& a.function_width == b.function_width
    &&& a.function_page == b.function_page
    &&& a.settings_dialog_open == b.settings_dialog_open
    &&& a.help_dialog_open == b.help_dialog_open
    &&& a.connections_dialog_open == b.connections_dialog_open
    &&& a.commands_manage_dialog_open == b.commands_manage_dialog_open
    &&& a.users_manage_dialog_open == b.users_manage_dialog_open
}

/// Applies pane actions to the shell layout.
pub struct ShellCoordinator;

impl ShellCoordinator {
    pub fn apply_function(layout: &mut ShellLayout, action: &FunctionAction, in_overlay: bool)
        requires
            layout_wf(old(layout).workspace@),
        ensures
            final(layout).workspace@ == apply_function_spec(old(layout).workspace@, *action),
            layout_wf(final(layout).workspace@),
            same_shell_chrome(*final(layout), *old(layout)),
    {
        if let Some(id) = &action.select_session {
            match layout.workspace.pane_for_session(id.as_str()) {
                Some(pane) => {
                    layout.workspace.focused_pane = pane;
                },
                None => {
                    let focused = layout.workspace.focused_pane;
                    layout.workspace.assign_session(focused, Some(id.clone()));
                },
            }
        }
        if let Some(id) = &action.close_session {
            layout.workspace.clear_session_everywhere(id.as_str());
        }
    }

    pub fn apply_workspace(layout: &mut ShellLayout, action: &WorkspaceAction)
        requires
            layout_wf(old(layout).workspace@),
        ensures
            final(layout).workspace@ == apply_workspace_spec(old(layout).workspace@, *action),
            layout_wf(final(layout).workspace@),
            same_shell_chrome(*final(layout), *old(layout)),
    {
        if let Some(pane) = action.focus_pane {
            layout.workspace.focused_pane = pane;
        }
        if let Some(pane) = action.minimize_pane {
            let _ = layout.workspace.hide_pane(pane);
        }
    }

    /// Shows a newly opened session in the focused pane.
    pub fn assign_new_session(layout: &mut ShellLayout, session_id: String)
        requires
            layout_wf(old(layout).workspace@),
        ensures
            final(layout).workspace@ == assign_spec(
                old(layout).workspace@,
                old(layout).workspace@.focused,
                Some(session_id@),
            ),
            layout_wf(final(layout).workspace@),
            same_shell_chrome(*final(layout), *old(layout)),
    {
        let pane = layout.workspace.focused_pane;
        Self::assign_session_to_pane(layout, pane, session_id);
    }

    /// Shows a session in pane `pane` and focuses that pane.
    pub fn assign_session_to_pane(layout: &mut ShellLayout, pane: PaneId, session_id: String)
        requires
            layout_wf(old(layout).workspace@),
        ensures
            final(layout).workspace@ == ({
                let v = assign_spec(old(layout).workspace@, pane, Some(session_id@));
                LayoutView { focused: pane, ..v }
            }),
            layout_wf(final(layout).workspace@),
            same_shell_chrome(*final(layout), *old(layout)),
    {
        layout.workspace.assign_session(pane, Some(session_id));
        layout.workspace.focused_pane = pane;
    }

    /// Takes a closed session off every pane.
    pub fn on_sessions_closed(layout: &mut ShellLayout, session_id: &str)
        requires
            layout_wf(old(layout).workspace@),
        ensures
            final(layout).workspace@ == clear_spec(old(layout).workspace@, session_id@, None),
            layout_wf(final(layout).workspace@),
            same_shell_chrome(*final(layout), *old(layout)),
    {
        layout.workspace.clear_session_everywhere(session_id);
    }
}

/// Selecting a session (when the focused pane exists) leaves it in the focused pane.
pub proof fn law_select_session_focuses_it(v: LayoutView, s: Seq<char>)
    requires
        layout_wf(v),
        has_pane(v.panes, v.focused),
    ensures
        session_of(select_session_spec(v, s).panes, select_session_spec(v, s).focused) == Some(s),
{
    lemma_first_session_index(v.panes, s);
    match pane_for_session_spec(v.panes, s) {
        Some(p) => {
            let i = first_session_index(v.panes, s);
            lemma_pane_index(v.panes, p, i);
        },
        None => {
            lemma_with_session(v.panes, v.focused, Some(s));
        },
    }
}

} // verus!
