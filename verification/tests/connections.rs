use uishell::conn_order::{sort_rows, ConnOrder};
use uishell::connection_display::{connection_type_icon, connection_type_label, workspace_session_icon};
use uishell::function_pane::connections::{conn_subtitle as detail_line, listed_connections};
use uishell::home::{conn_subtitle, recent_connections, sidebar_nav, HomeSidebarAction, MAX_RECENT_CONNECTIONS};
use uishell::session::{ConnectionType, FileManagerMode, FileManagerSessionInfo, SavedConnection, TerminalSession, WorkspaceSession};

fn conn(name: &str, t: ConnectionType) -> SavedConnection {
    SavedConnection {
        id: format!("id-{name}"),
        name: name.to_string(),
        conn_type: t,
        shell: None,
        working_dir: None,
        ssh_host: None,
        ssh_port: None,
        ssh_user: None,
        ssh_password: None,
        auth_user_id: None,
        profile_id: None,
        serial_port: None,
        serial_baud: None,
        ble_device: None,
        env_vars: Vec::new(),
        favorite: false,
        last_connected: None,
    }
}

fn with_last(mut c: SavedConnection, t: &str) -> SavedConnection {
    c.last_connected = Some(t.to_string());
    c
}

#[test]
fn recent_order_newest_first_then_name() {
    let conns = vec![
        conn("zeta", ConnectionType::Local),
        with_last(conn("beta", ConnectionType::Ssh), "2024-01-02"),
        with_last(conn("alpha", ConnectionType::Ssh), "2024-01-02"),
        with_last(conn("gamma", ConnectionType::Serial), "2024-03-01"),
        conn("eta", ConnectionType::Ble),
    ];
    assert_eq!(recent_connections(&conns), vec![3, 2, 1, 4, 0]);
}

#[test]
fn recent_list_is_capped() {
    let conns: Vec<SavedConnection> = (0..25).map(|i| with_last(conn(&format!("c{i:02}"), ConnectionType::Local), &format!("t{i:02}"))).collect();
    let r = recent_connections(&conns);
    assert_eq!(r.len(), MAX_RECENT_CONNECTIONS);
    assert_eq!(r[0], 24);
    assert_eq!(r[19], 5);
}

#[test]
fn recent_of_nothing_is_empty() {
    assert!(recent_connections(&[]).is_empty());
}

#[test]
fn listing_puts_favorites_first_and_never_connected_last() {
    let mut fav = conn("fav", ConnectionType::Local);
    fav.favorite = true;
    let conns = vec![
        conn("never", ConnectionType::Local),
        with_last(conn("old", ConnectionType::Local), "2020"),
        fav,
        with_last(conn("new", ConnectionType::Ssh), "2025"),
        with_last(conn("empty-time", ConnectionType::Local), ""),
    ];
    assert_eq!(listed_connections(&conns, None), vec![2, 3, 1, 4, 0]);
    assert_eq!(listed_connections(&conns, Some(ConnectionType::Ssh)), vec![3]);
    assert_eq!(listed_connections(&conns, Some(ConnectionType::Ble)), Vec::<usize>::new());
}

#[test]
fn equal_keys_keep_saved_order() {
    let conns = vec![conn("same", ConnectionType::Local), conn("same", ConnectionType::Local)];
    assert_eq!(sort_rows(ConnOrder::Listing, &conns, None), vec![0, 1]);
    assert_eq!(sort_rows(ConnOrder::Recent, &conns, None), vec![0, 1]);
}

#[test]
fn subtitles_per_type() {
    let mut ssh = conn("s", ConnectionType::Ssh);
    ssh.ssh_host = Some("example.org".into());
    ssh.ssh_port = Some(2222);
    assert_eq!(conn_subtitle(&ssh), "SSH  ·  root@example.org:2222");
    let mut serial = conn("t", ConnectionType::Serial);
    serial.serial_port = Some("/dev/ttyUSB0".into());
    serial.serial_baud = Some(9600);
    assert_eq!(detail_line(&serial), "/dev/ttyUSB0 @ 9600 baud");
    let local = conn("l", ConnectionType::Local);
    assert_eq!(detail_line(&local), "default · ~");
    let ble = conn("b", ConnectionType::Ble);
    assert_eq!(detail_line(&ble), "?");
}

#[test]
fn type_labels_and_icons() {
    assert_eq!(connection_type_label(ConnectionType::Ssh), "SSH");
    assert!(!connection_type_icon(ConnectionType::Local).is_empty());
    let t = WorkspaceSession::Terminal(TerminalSession {
        id: "t".into(),
        conn_type: ConnectionType::Serial,
        want_terminal_focus: false,
        terminal_had_focus: false,
    });
    assert_eq!(workspace_session_icon(&t), connection_type_icon(ConnectionType::Serial));
    let f = WorkspaceSession::FileManager(FileManagerSessionInfo { id: "f".into(), mode: FileManagerMode::LocalDual });
    assert!(!workspace_session_icon(&f).is_empty());
}

#[test]
fn sidebar_navigation() {
    assert_eq!(sidebar_nav(false, false), HomeSidebarAction::Idle);
    assert_eq!(sidebar_nav(true, false), HomeSidebarAction::Home);
    assert_eq!(sidebar_nav(true, true), HomeSidebarAction::Settings);
}
