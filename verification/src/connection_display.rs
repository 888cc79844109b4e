//! UI-facing labels and icons for connection types and sessions.

use vstd::prelude::*;

use crate::session::{ConnectionType, FileManagerMode, WorkspaceSession};

verus! {

/// Display name of a connection type.
pub open spec fn connection_type_label_spec(conn_type: ConnectionType) -> Seq<char> {
    match conn_type {
        ConnectionType::Local => "Local Terminal"@,
        ConnectionType::Ssh => "SSH"@,
        ConnectionType::Serial => "Serial Port"@,
        ConnectionType::Ble => "BLE Serial"@,
    }
}

/// Icon of a connection type.
pub open spec fn connection_type_icon_spec(conn_type: ConnectionType) -> Seq<char> {
    match conn_type {
        ConnectionType::Local => "\u{1F4BB}"@,
        ConnectionType::Ssh => "\u{1F310}"@,
        ConnectionType::Serial => "\u{1F50C}"@,
        ConnectionType::Ble => "\u{1F4F6}"@,
    }
}

/// Icon of an open session: the connection icon for a terminal, a folder for a file manager.
pub open spec fn workspace_session_icon_spec(session: WorkspaceSession) -> Seq<char> {
    match session {
        WorkspaceSession::Terminal(t) => connection_type_icon_spec(t.conn_type),
        WorkspaceSession::FileManager(f) => match f.mode {
            FileManagerMode::SshSftp => "\u{1F4C1}"@,
            FileManagerMode::LocalDual => "\u{1F4C2}"@,
        },
    }
}

pub fn connection_type_label(conn_type: ConnectionType) -> (s: &'static str)
    ensures
        s@ == connection_type_label_spec(conn_type),
{
    match conn_type {
        ConnectionType::Local => "Local Terminal",
        ConnectionType::Ssh => "SSH",
        ConnectionType::Serial => "Serial Port",
        ConnectionType::Ble => "BLE Serial",
    }
}

pub fn connection_type_icon(conn_type: ConnectionType) -> (s: &'static str)
    ensures
        s@ == connection_type_icon_spec(conn_type),
{
    match conn_type {
        ConnectionType::Local => "\u{1F4BB}",
        ConnectionType::Ssh => "\u{1F310}",
        ConnectionType::Serial => "\u{1F50C}",
        ConnectionType::Ble => "\u{1F4F6}",
    }
}

pub fn workspace_session_icon(session: &WorkspaceSession) -> (s: &str)
    ensures
        s@ == workspace_session_icon_spec(*session),
{
    match session {
        WorkspaceSession::Terminal(t) => connection_type_icon(t.conn_type),
        WorkspaceSession::FileManager(f) => match f.mode {
            FileManagerMode::SshSftp => "\u{1F4C1}",
            FileManagerMode::LocalDual => "\u{1F4C2}",
        },
    }
}

} // verus!
