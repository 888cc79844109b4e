//! Shell message bus — actions from the function pane and the workspace pane.

use vstd::prelude::*;

use crate::file_manager::FileManagerAction;
use crate::layout_state::PaneId;

verus! {

/// Actions emitted by the left function pane.
#[derive(Debug)]
pub struct FunctionAction {
    pub select_session: Option<String>,
    pub start_session_drag: Option<String>,
    pub duplicate_session: Option<String>,
    pub close_session: Option<String>,
    pub open_connection_mgmt: bool,
    pub toggle_settings: bool,
    pub go_back: bool,
    pub new_connection: bool,
    pub connect_connection: Option<String>,
    pub open_file_mgr: Option<String>,
    pub edit_connection: Option<String>,
    pub delete_connection: Option<String>,
    pub run_favorite_command: Option<String>,
    pub edit_favorite_command: Option<String>,
    pub delete_favorite_command: Option<String>,
    pub new_favorite_command: bool,
}

/// An action that asks for nothing.
pub open spec fn is_empty_function_action(a: FunctionAction) -> bool {
    &&& a.select_session is None
    &&& a.start_session_drag is None
    &&& a.duplicate_session is None
    &&& a.close_session is None
    &&& !a.open_connection_mgmt
    &&& !a.toggle_settings
    &&& !a.go_back
    &&& !a.new_connection
    &&& a.connect_connection is None
    &&& a.open_file_mgr is None
    &&& a.edit_connection is None
    &&& a.delete_connection is None
    &&& a.run_favorite_command is None
    &&& a.edit_favorite_command is None
    &&& a.delete_favorite_command is None
    &&& !a.new_favorite_command
}

/// The request of `newer` where it makes one, else that of `older`.
pub open spec fn prefer(newer: Option<String>, older: Option<String>) -> Option<String> {
    if newer is Some {
        newer
    } else {
        older
    }
}

/// `a` merged with `b`: every request that `b` makes wins, flags are combined.
pub open spec fn merged(a: FunctionAction, b: FunctionAction) -> FunctionAction {
    FunctionAction {
        select_session: prefer(b.select_session, a.select_session),
        start_session_drag: prefer(b.start_session_drag, a.start_session_drag),
        duplicate_session: prefer(b.duplicate_session, a.duplicate_session),
        close_session: prefer(b.close_session, a.close_session),
        open_connection_mgmt: a.open_connection_mgmt || b.open_connection_mgmt,
        toggle_settings: a.toggle_settings || b.toggle_settings,
        go_back: a.go_back || b.go_back,
        new_connection: a.new_connection || b.new_connection,
        connect_connection: prefer(b.connect_connection, a.connect_connection),
        open_file_mgr: prefer(b.open_file_mgr, a.open_file_mgr),
        edit_connection: prefer(b.edit_connection, a.edit_connection),
        delete_connection: prefer(b.delete_connection, a.delete_connection),
        run_favorite_command: prefer(b.run_favorite_command, a.run_favorite_command),
        edit_favorite_command: prefer(b.edit_favorite_command, a.edit_favorite_command),
        delete_favorite_command: prefer(b.delete_favorite_command, a.delete_favorite_command),
        new_favorite_command: a.new_favorite_command || b.new_favorite_command,
    }
}

fn take_newer(older: &mut Option<String>, newer: Option<String>)
    ensures
        *final(older) == prefer(newer, *old(older)),
{
    if newer.is_some() {
        *older = newer;
    }
}

impl Default for FunctionAction {
    fn default() -> (a: FunctionAction)
        ensures
            is_empty_function_action(a),
    {
        FunctionAction::empty()
    }
}

impl FunctionAction {
    pub fn empty() -> (a: FunctionAction)
        ensures
            is_empty_function_action(a),
    {
        FunctionAction {
            select_session: None,
            start_session_drag: None,
            duplicate_session: None,
            close_session: None,
            open_connection_mgmt: false,
            toggle_settings: false,
            go_back: false,
            new_connection: false,
            connect_connection: None,
            open_file_mgr: None,
            edit_connection: None,
            delete_connection: None,
            run_favorite_command: None,
            edit_favorite_command: None,
            delete_favorite_command: None,
            new_favorite_command: false,
        }
    }

    /// Merge another action into this one (non-empty fields from `other` win).
    /// Used so menu-bar actions are not wiped by the function pane render.
    pub fn merge_from(&mut self, other: Self)
        ensures
            *final(self) == merged(*old(self), other),
    {
        take_newer(&mut self.select_session, other.select_session);
        take_newer(&mut self.start_session_drag, other.start_session_drag);
        take_newer(&mut self.duplicate_session, other.duplicate_session);
        take_newer(&mut self.close_session, other.close_session);
        self.open_connection_mgmt = self.open_connection_mgmt || other.open_connection_mgmt;
        self.toggle_settings = self.toggle_settings || other.toggle_settings;
        self.go_back = self.go_back || other.go_back;
        self.new_connection = self.new_connection || other.new_connection;
        self.new_favorite_command = self.new_favorite_command || other.new_favorite_command;
        take_newer(&mut self.connect_connection, other.connect_connection);
        take_newer(&mut self.open_file_mgr, other.open_file_mgr);
        take_newer(&mut self.edit_connection, other.edit_connection);
        take_newer(&mut self.delete_connection, other.delete_connection);
        take_newer(&mut self.run_favorite_command, other.run_favorite_command);
        take_newer(&mut self.edit_favorite_command, other.edit_favorite_command);
        take_newer(&mut self.delete_favorite_command, other.delete_favorite_command);
    }
}

/// Merging an action that asks for nothing changes nothing.
pub proof fn law_merge_empty_is_identity(a: FunctionAction, e: FunctionAction)
    requires
        is_empty_function_action(e),
    ensures
        merged(a, e) == a,
{
}

/// Merging an action into one that asks for nothing gives that action.
pub proof fn law_merge_into_empty(e: FunctionAction, b: FunctionAction)
    requires
        is_empty_function_action(e),
    ensures
        merged(e, b) == b,
{
}

/// Merging the same action twice is the same as merging it once.
pub proof fn law_merge_idempotent(a: FunctionAction, b: FunctionAction)
    ensures
        merged(merged(a, b), b) == merged(a, b),
{
}

/// Target pane + connection id when connecting from an empty split pane.
#[derive(Debug, Clone)]
pub struct EmptyPaneConnect {
    pub pane: PaneId,
    pub connection_id: String,
}

/// What a terminal view asked for in one frame.
#[derive(Debug, Clone)]
pub enum ConnectionViewAction {
    /// Nothing.
    Idle,
    /// Close the view's session.
    CloseSession,
    /// Minimise the view's pane.
    MinimizePane,
    /// Reconnect the connection with this id.
    Reconnect(String),
}

impl Default for ConnectionViewAction {
    fn default() -> (a: ConnectionViewAction)
        ensures
            a is Idle,
    {
        ConnectionViewAction::Idle
    }
}

/// Actions emitted by the right workspace pane.
#[derive(Debug)]
pub struct WorkspaceAction {
    pub focus_pane: Option<PaneId>,
    pub minimize_pane: Option<PaneId>,
    pub close_pane_session: Option<PaneId>,
    pub start_pane_drag: Option<PaneId>,
    /// What the terminal view of `terminal_pane` asked for.
    pub terminal: ConnectionViewAction,
    pub terminal_pane: Option<PaneId>,
    pub file_manager: FileManagerAction,
    pub connect_from_empty: Option<EmptyPaneConnect>,
    pub open_connections_from_empty: Option<PaneId>,
    pub drop_applied: bool,
}

/// A workspace action that asks for nothing.
pub open spec fn is_empty_workspace_action(a: WorkspaceAction) -> bool {
    &&& a.focus_pane is None
    &&& a.minimize_pane is None
    &&& a.close_pane_session is None
    &&& a.start_pane_drag is None
    &&& a.terminal is Idle
    &&& a.terminal_pane is None
    &&& !a.file_manager.close
    &&& a.connect_from_empty is None
    &&& a.open_connections_from_empty is None
    &&& !a.drop_applied
}

impl WorkspaceAction {
    pub fn empty() -> (a: WorkspaceAction)
        ensures
            is_empty_workspace_action(a),
    {
        WorkspaceAction {
            focus_pane: None,
            minimize_pane: None,
            close_pane_session: None,
            start_pane_drag: None,
            terminal: ConnectionViewAction::Idle,
            terminal_pane: None,
            file_manager: FileManagerAction { close: false },
            connect_from_empty: None,
            open_connections_from_empty: None,
            drop_applied: false,
        }
    }
}

impl Default for WorkspaceAction {
    fn default() -> (a: WorkspaceAction)
        ensures
            is_empty_workspace_action(a),
    {
        WorkspaceAction::empty()
    }
}

} // verus!
