//! Sidebar Files tab — what it shows for the focused session.

use vstd::prelude::*;

use crate::session::{
    first_session_with_id, lemma_first_session_with_id, session_id_of, position_of_session, ConnectionType,
    WorkspaceSession,
};

verus! {

/// Which session the Files tab browses.
#[derive(Clone, Copy, PartialEq, Eq, Debug, Structural)]
pub enum FilesTarget {
    /// No focused terminal session.
    NoTerminal,
    /// The focused terminal is a serial or BLE connection, which has no files.
    Unsupported,
    /// The focused terminal at this position of the sessions, a local or SSH one.
    Terminal(usize),
}

/// The Files tab's target: the first session with the focused id, when it is a local
/// or SSH terminal.
pub open spec fn files_target_spec(sessions: Seq<WorkspaceSession>, focused: Option<Seq<char>>) -> FilesTarget {
    match focused {
        None => FilesTarget::NoTerminal,
        Some(id) => {
            let i = first_session_with_id(sessions, id);
            if i < 0 {
                FilesTarget::NoTerminal
            } else {
                match sessions[i] {
                    WorkspaceSession::Terminal(t) => match t.conn_type {
                        ConnectionType::Serial | ConnectionType::Ble => FilesTarget::Unsupported,
                        _ => FilesTarget::Terminal(i as usize),
                    },
                    WorkspaceSession::FileManager(_) => FilesTarget::NoTerminal,
                }
            }
        },
    }
}

pub fn files_target(sessions: &[WorkspaceSession], focused_session_id: Option<&str>) -> (t: FilesTarget)
    ensures
        t == files_target_spec(sessions@, crate::function_pane::opt_str_view(focused_session_id)),
{
    let id = match focused_session_id {
        Some(id) => id,
        None => {
            return FilesTarget::NoTerminal;
        },
    };
    proof {
        lemma_first_session_with_id(sessions@, id@);
    }
    match position_of_session(sessions, id) {
        None => FilesTarget::NoTerminal,
        Some(i) => match &sessions[i] {
            WorkspaceSession::Terminal(t) => match t.conn_type {
                ConnectionType::Serial | ConnectionType::Ble => FilesTarget::Unsupported,
                _ => FilesTarget::Terminal(i),
            },
            WorkspaceSession::FileManager(_) => FilesTarget::NoTerminal,
        },
    }
}

/// The Files tab browses only local and SSH terminals. With the focus on `id`, whose
/// first session is the one at `k`: a serial or BLE terminal is unsupported, a local or
/// SSH terminal is browsed at position `k`, and a file manager is no terminal.
pub proof fn law_files_target_by_connection(sessions: Seq<WorkspaceSession>, id: Seq<char>, k: int)
    requires
        0 <= k < sessions.len(),
        session_id_of(sessions[k]) == id,
        forall|j: int| 0 <= j < k ==> session_id_of(#[trigger] sessions[j]) != id,
    ensures
        files_target_spec(sessions, Some(id)) == match sessions[k] {
            WorkspaceSession::Terminal(t) => if t.conn_type == ConnectionType::Serial || t.conn_type
                == ConnectionType::Ble {
                FilesTarget::Unsupported
            } else {
                FilesTarget::Terminal(k as usize)
            },
            WorkspaceSession::FileManager(_) => FilesTarget::NoTerminal,
        },
{
    lemma_first_session_with_id(sessions, id);
    let f = first_session_with_id(sessions, id);
    if f != k {
        if f >= 0 && f < k {
            assert(session_id_of(sessions[f]) != id);
        } else {
            assert(session_id_of(sessions[k]) != id);
        }
    }
}

/// A browsed terminal is a local or SSH terminal with the focused id (of a list of
/// sessions that a slice can hold).
pub proof fn law_files_target_is_local_or_ssh(sessions: Seq<WorkspaceSession>, focused: Option<Seq<char>>)
    requires
        sessions.len() <= usize::MAX,
    ensures
        files_target_spec(sessions, focused) matches FilesTarget::Terminal(i) ==> {
            &&& i < sessions.len()
            &&& focused == Some(session_id_of(sessions[i as int]))
            &&& sessions[i as int] matches WorkspaceSession::Terminal(t) && (t.conn_type == ConnectionType::Local
                || t.conn_type == ConnectionType::Ssh)
        },
{
    if let Some(id) = focused {
        lemma_first_session_with_id(sessions, id);
    }
}

/// The state of an SSH terminal's SFTP connection for the Files tab.
pub enum SftpState {
    /// No SFTP connection.
    Absent,
    Connecting,
    /// The connection failed with this error.
    Failed(String),
    Ready,
}

/// What the Files tab paints for a terminal.
pub enum FilesPanel {
    /// The SFTP connection failed, with this error.
    SftpFailed(String),
    /// Waiting for the SFTP connection or a listing.
    Connecting,
    /// The terminal's working directory is not known yet.
    WaitingCwd,
    /// The listing of the working directory.
    Browse,
}

/// A [`FilesPanel`] with its error taken as characters.
pub enum FilesPanelView {
    SftpFailed(Seq<char>),
    Connecting,
    WaitingCwd,
    Browse,
}

impl View for FilesPanel {
    type V = FilesPanelView;

    open spec fn view(&self) -> FilesPanelView {
        match self {
            FilesPanel::SftpFailed(e) => FilesPanelView::SftpFailed(e@),
            FilesPanel::Connecting => FilesPanelView::Connecting,
            FilesPanel::WaitingCwd => FilesPanelView::WaitingCwd,
            FilesPanel::Browse => FilesPanelView::Browse,
        }
    }
}

/// What the Files tab shows for a local or SSH terminal (`is_ssh`), given its SFTP
/// state, the error of its file listing, whether its working directory is known and
/// whether a listing is under way: for SSH, a failed connection shows its error, a
/// connecting one waits, and without a connection a listing error shows; then an
/// unknown directory waits (as connecting while busy), else the listing shows.
pub open spec fn files_panel_spec(
    is_ssh: bool,
    sftp: SftpState,
    files_error: Option<Seq<char>>,
    cwd_known: bool,
    busy: bool,
) -> FilesPanelView {
    if is_ssh && sftp is Failed {
        FilesPanelView::SftpFailed(
            match sftp {
                SftpState::Failed(e) => e@,
                _ => seq![],
            },
        )
    } else if is_ssh && sftp is Connecting {
        FilesPanelView::Connecting
    } else if is_ssh && sftp is Absent && files_error is Some {
        FilesPanelView::SftpFailed(files_error->0)
    } else if !cwd_known {
        if busy {
            FilesPanelView::Connecting
        } else {
            FilesPanelView::WaitingCwd
        }
    } else {
        FilesPanelView::Browse
    }
}

pub fn files_panel(
    is_ssh: bool,
    sftp: SftpState,
    files_error: Option<String>,
    cwd_known: bool,
    busy: bool,
) -> (p: FilesPanel)
    ensures
        p@ == files_panel_spec(is_ssh, sftp, crate::text::opt_chars(files_error), cwd_known, busy),
{
    if is_ssh {
        match sftp {
            SftpState::Failed(e) => {
                return FilesPanel::SftpFailed(e);
            },
            SftpState::Connecting => {
                return FilesPanel::Connecting;
            },
            SftpState::Absent => {
                if let Some(e) = files_error {
                    return FilesPanel::SftpFailed(e);
                }
            },
            SftpState::Ready => {},
        }
    }
    if !cwd_known {
        if busy {
            FilesPanel::Connecting
        } else {
            FilesPanel::WaitingCwd
        }
    } else {
        FilesPanel::Browse
    }
}

} // verus!
