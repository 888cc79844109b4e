//! The data that the shell reads of saved connections and open sessions.

use vstd::prelude::*;

verus! {

/// Kind of connection.
#[derive(Clone, Copy, PartialEq, Eq, Debug, Structural)]
pub enum ConnectionType {
    Local,
    Ssh,
    Serial,
    Ble,
}

/// Layout of a file manager session.
#[derive(Clone, Copy, PartialEq, Eq, Debug, Structural)]
pub enum FileManagerMode {
    /// Remote SFTP pane on the left, local pane on the right.
    SshSftp,
    /// Two local panes.
    LocalDual,
}

/// A saved connection profile.
#[derive(Clone, Debug)]
pub struct SavedConnection {
    pub id: String,
    pub name: String,
    pub conn_type: ConnectionType,
    pub shell: Option<String>,
    pub working_dir: Option<String>,
    pub ssh_host: Option<String>,
    pub ssh_port: Option<u16>,
    pub ssh_user: Option<String>,
    pub ssh_password: Option<String>,
    pub auth_user_id: Option<String>,
    pub profile_id: Option<String>,
    pub serial_port: Option<String>,
    pub serial_baud: Option<u32>,
    pub ble_device: Option<String>,
    /// Per-connection environment variables.
    pub env_vars: Vec<(String, String)>,
    /// Pinned to the top of the connection list.
    pub favorite: bool,
    /// When the connection was last opened, as sortable text.
    pub last_connected: Option<String>,
}

/// An open terminal session.
#[derive(Clone, Debug)]
pub struct TerminalSession {
    pub id: String,
    pub conn_type: ConnectionType,
    /// The terminal should take keyboard focus.
    pub want_terminal_focus: bool,
    /// The terminal held keyboard focus in the last frame.
    pub terminal_had_focus: bool,
}

/// An open file manager session.
#[derive(Clone, Debug)]
pub struct FileManagerSessionInfo {
    pub id: String,
    pub mode: FileManagerMode,
}

/// A session open in the workspace.
#[derive(Clone, Debug)]
pub enum WorkspaceSession {
    Terminal(TerminalSession),
    FileManager(FileManagerSessionInfo),
}

/// The id of a session.
pub open spec fn session_id_of(s: WorkspaceSession) -> Seq<char> {
    match s {
        WorkspaceSession::Terminal(t) => t.id@,
        WorkspaceSession::FileManager(f) => f.id@,
    }
}

impl WorkspaceSession {
    pub fn id(&self) -> (id: &str)
        ensures
            id@ == session_id_of(*self),
    {
        match self {
            WorkspaceSession::Terminal(t) => t.id.as_str(),
            WorkspaceSession::FileManager(f) => f.id.as_str(),
        }
    }

    pub fn is_terminal(&self) -> (b: bool)
        ensures
            b == (*self is Terminal),
    {
        match self {
            WorkspaceSession::Terminal(_) => true,
            WorkspaceSession::FileManager(_) => false,
        }
    }
}

/// Position of the first session with id `id`, or -1 when there is none.
pub open spec fn first_session_with_id(sessions: Seq<WorkspaceSession>, id: Seq<char>) -> int
    decreases sessions.len(),
{
    if sessions.len() == 0 {
        -1
    } else {
        let r = first_session_with_id(sessions.drop_last(), id);
        if r >= 0 {
            r
        } else if session_id_of(sessions.last()) == id {
            sessions.len() - 1
        } else {
            -1
        }
    }
}

pub proof fn lemma_first_session_with_id(sessions: Seq<WorkspaceSession>, id: Seq<char>)
    ensures
        -1 <= first_session_with_id(sessions, id) < sessions.len(),
        first_session_with_id(sessions, id) >= 0 ==> session_id_of(sessions[first_session_with_id(sessions, id)]) == id,
        forall|k: int|
            0 <= k < sessions.len() && (k < first_session_with_id(sessions, id) || first_session_with_id(sessions, id) == -1)
                ==> session_id_of(#[trigger] sessions[k]) != id,
    decreases sessions.len(),
{
    if sessions.len() > 0 {
        lemma_first_session_with_id(sessions.drop_last(), id);
        assert forall|k: int| 0 <= k < sessions.len() - 1 implies #[trigger] sessions[k] == sessions.drop_last()[k] by {}
    }
}

/// The first session with id `id`.
pub open spec fn find_session(sessions: Seq<WorkspaceSession>, id: Seq<char>) -> Option<WorkspaceSession> {
    let i = first_session_with_id(sessions, id);
    if i >= 0 {
        Some(sessions[i])
    } else {
        None
    }
}

/// Position of the first session with id `id` (`iter().position(|s| s.id() == id)`).
pub fn position_of_session(sessions: &[WorkspaceSession], id: &str) -> (r: Option<usize>)
    ensures
        match r {
            Some(i) => i as int == first_session_with_id(sessions@, id@),
            None => first_session_with_id(sessions@, id@) == -1,
        },
{
    proof {
        lemma_first_session_with_id(sessions@, id@);
    }
    let mut i: usize = 0;
    while i < sessions.len()
        invariant
            i <= sessions@.len(),
            forall|k: int| 0 <= k < i ==> session_id_of(#[trigger] sessions@[k]) != id@,
        decreases sessions@.len() - i,
    {
        if crate::text::str_eq(sessions[i].id(), id) {
            proof {
                lemma_first_session_with_id(sessions@, id@);
                let f = first_session_with_id(sessions@, id@);
                if f != i as int {
                    if f == -1 || (i as int) < f {
                        assert(session_id_of(sessions@[i as int]) != id@);
                    } else {
                        assert(session_id_of(sessions@[f]) != id@);
                    }
                }
            }
            return Some(i);
        }
        i = i + 1;
    }
    proof {
        let f = first_session_with_id(sessions@, id@);
        if f >= 0 {
            assert(session_id_of(sessions@[f]) != id@);
        }
    }
    None
}

} // verus!

verus! {

/// Whether a saved connection matches: id `id` when given, and local when `local_only`.
pub open spec fn conn_matches(c: SavedConnection, id: Option<Seq<char>>, local_only: bool) -> bool {
    (match id {
        Some(x) => c.id@ == x,
        None => true,
    }) && (!local_only || c.conn_type == ConnectionType::Local)
}

/// Position of the first matching saved connection, or -1 when none matches.
pub open spec fn first_conn_index(conns: Seq<SavedConnection>, id: Option<Seq<char>>, local_only: bool) -> int
    decreases conns.len(),
{
    if conns.len() == 0 {
        -1
    } else {
        let r = first_conn_index(conns.drop_last(), id, local_only);
        if r >= 0 {
            r
        } else if conn_matches(conns.last(), id, local_only) {
            conns.len() - 1
        } else {
            -1
        }
    }
}

pub proof fn lemma_first_conn_index(conns: Seq<SavedConnection>, id: Option<Seq<char>>, local_only: bool)
    ensures
        -1 <= first_conn_index(conns, id, local_only) < conns.len(),
        first_conn_index(conns, id, local_only) >= 0 ==> conn_matches(
            conns[first_conn_index(conns, id, local_only)],
            id,
            local_only,
        ),
        forall|k: int|
            0 <= k < conns.len() && (k < first_conn_index(conns, id, local_only) || first_conn_index(
                conns,
                id,
                local_only,
            ) == -1) ==> !conn_matches(#[trigger] conns[k], id, local_only),
    decreases conns.len(),
{
    if conns.len() > 0 {
        lemma_first_conn_index(conns.drop_last(), id, local_only);
        assert forall|k: int| 0 <= k < conns.len() - 1 implies #[trigger] conns[k] == conns.drop_last()[k] by {}
    }
}

/// Position of the first saved connection with id `id` (any id when `None`) that is
/// local when `local_only`.
pub fn find_connection(conns: &[SavedConnection], id: Option<&str>, local_only: bool) -> (r: Option<usize>)
    ensures
        match r {
            Some(i) => i < conns@.len() && i as int == first_conn_index(
                conns@,
                crate::function_pane::opt_str_view(id),
                local_only,
            ),
            None => first_conn_index(conns@, crate::function_pane::opt_str_view(id), local_only) == -1,
        },
{
    let ghost idv = crate::function_pane::opt_str_view(id);
    let mut i: usize = 0;
    while i < conns.len()
        invariant
            i <= conns@.len(),
            idv == crate::function_pane::opt_str_view(id),
            forall|k: int| 0 <= k < i ==> !conn_matches(#[trigger] conns@[k], idv, local_only),
        decreases conns@.len() - i,
    {
        let id_ok = match id {
            Some(x) => crate::text::str_eq(conns[i].id.as_str(), x),
            None => true,
        };
        if id_ok && (!local_only || conns[i].conn_type == ConnectionType::Local) {
            proof {
                assert(conn_matches(conns@[i as int], idv, local_only));
                lemma_first_conn_index(conns@, idv, local_only);
                let f = first_conn_index(conns@, idv, local_only);
                if f != i as int {
                    if f >= 0 && f < i as int {
                        assert(!conn_matches(conns@[f], idv, local_only));
                    } else {
                        assert(!conn_matches(conns@[i as int], idv, local_only));
                    }
                }
            }
            return Some(i);
        }
        i = i + 1;
    }
    proof {
        lemma_first_conn_index(conns@, idv, local_only);
        let f = first_conn_index(conns@, idv, local_only);
        if f >= 0 {
            assert(!conn_matches(conns@[f], idv, local_only));
        }
    }
    None
}

} // verus!
