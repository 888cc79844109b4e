use uishell::dialogs::auth_user::{AuthMethod, AuthUser, AuthUserDialog};
use uishell::dialogs::connection_form::{ConnectionFormOutcome, NewConnectionDialog};
use uishell::dialogs::draft::{serial_baud_from_field, ssh_port_from_field, username_for_user_id, DraftKind};
use uishell::dialogs::env_vars::{env_map_to_rows, env_rows_to_map};
use uishell::dialogs::favorite_commands::{FavoriteCommand, FavoriteCommandDialog, FavoriteCommandOutcome};
use uishell::dialogs::profile::{ProfileDialog, ProfileDialogOutcome, TerminalProfile};
use uishell::dialogs::{available_types, supported_conn_type, FooterAction, LocalTerminalSettingsDialog, PlatformSupport};
use uishell::dialogs::ConnectionFormOutcome as InlineOutcome;
use uishell::dialogs::NewConnectionDialog as InlineConnectionDialog;
use uishell::session::ConnectionType;

fn user(id: &str, username: &str) -> AuthUser {
    AuthUser {
        id: id.into(),
        name: format!("{username} key"),
        username: username.into(),
        auth_method: AuthMethod::PrivateKey,
        password: None,
        private_key: Some("k".into()),
        key_passphrase: None,
    }
}

fn is_uuid_text(s: &str) -> bool {
    let b = s.as_bytes();
    s.len() == 36
        && b[14] == b'4'
        && b"89ab".contains(&b[19])
        && s.chars().enumerate().all(|(i, c)| {
            if i == 8 || i == 13 || i == 18 || i == 23 {
                c == '-'
            } else {
                c.is_ascii_hexdigit() && !c.is_ascii_uppercase()
            }
        })
}

#[test]
fn new_auth_user_gets_a_fresh_uuid() {
    let mut d = AuthUserDialog::new();
    d.open_new();
    d.name = "  prod  ".into();
    d.username = "deploy".into();
    assert!(!d.can_save());
    d.password = "secret".into();
    let saved = d.finish_frame(FooterAction::Save, false, [0x11; 16]).expect("saved");
    assert!(is_uuid_text(&saved.id));
    assert_eq!(saved.name, "prod");
    assert_eq!(d.last_saved_id.as_deref(), Some(saved.id.as_str()));
    assert!(!d.open);
    let mut d2 = AuthUserDialog::new();
    d2.open_new();
    d2.name = "x".into();
    d2.username = "y".into();
    d2.password = "z".into();
    let other = d2.finish_frame(FooterAction::Save, false, [0x22; 16]).unwrap();
    assert_ne!(other.id, saved.id);
}

#[test]
fn edited_auth_user_keeps_its_id() {
    let mut d = AuthUserDialog::new();
    d.open_edit(&user("u-1", "root"));
    let saved = d.finish_frame(FooterAction::Save, false, [0x33; 16]).unwrap();
    assert_eq!(saved.id, "u-1");
}

#[test]
fn blank_auth_user_cannot_save() {
    let mut d = AuthUserDialog::new();
    d.open_new();
    d.name = "   ".into();
    d.username = "u".into();
    d.password = "p".into();
    assert!(!d.can_save());
    assert!(d.finish_frame(FooterAction::Save, false, [0u8; 16]).is_none());
    assert!(d.open);
    assert!(d.finish_frame(FooterAction::Cancel, false, [0u8; 16]).is_none());
    assert!(!d.open);
}

#[test]
fn fields_parse_with_defaults() {
    assert_eq!(ssh_port_from_field("2200"), 2200);
    assert_eq!(ssh_port_from_field("+22"), 22);
    assert_eq!(ssh_port_from_field("70000"), 22);
    assert_eq!(ssh_port_from_field("abc"), 22);
    assert_eq!(ssh_port_from_field(""), 22);
    assert_eq!(serial_baud_from_field("9600"), 9600);
    assert_eq!(serial_baud_from_field(" 9600"), 115200);
    assert_eq!(serial_baud_from_field("4294967296"), 115200);
}

#[test]
fn username_lookup_defaults_to_root() {
    let users = vec![user("a", "alice"), user("b", "bob")];
    assert_eq!(username_for_user_id(&users, "b"), "bob");
    assert_eq!(username_for_user_id(&users, "c"), "root");
}

#[test]
fn ssh_form_saves_auth_user_and_port() {
    let mut d = NewConnectionDialog::new(&[]);
    d.open_new("bash".into(), "/home/me".into(), &[]);
    d.name = "box".into();
    d.conn_type = ConnectionType::Ssh;
    d.ssh_host = "10.0.0.1".into();
    d.ssh_port = "2022".into();
    d.selected_auth_user_id = Some("b".into());
    d.selected_profile_id = Some(String::new());
    d.env_rows = vec![(" LANG ".into(), "C".into()), ("".into(), "x".into()), ("LANG".into(), "en".into())];
    assert!(d.can_create());
    let users = vec![user("b", "bob")];
    match d.footer_outcome(FooterAction::Save, &users) {
        ConnectionFormOutcome::Saved(draft) => {
            assert_eq!(draft.name, "box");
            assert_eq!(draft.profile_id, None);
            assert_eq!(draft.env_vars, vec![("LANG".to_string(), "en".to_string())]);
            match draft.kind {
                DraftKind::Ssh { host, port, username, auth_user_id, password } => {
                    assert_eq!(host, "10.0.0.1");
                    assert_eq!(port, 2022);
                    assert_eq!(username, "bob");
                    assert_eq!(auth_user_id.as_deref(), Some("b"));
                    assert_eq!(password, None);
                }
                _ => panic!("expected an SSH draft"),
            }
        }
        _ => panic!("expected a saved draft"),
    }
}

#[test]
fn local_form_trims_working_dir() {
    let mut d = NewConnectionDialog::new(&[]);
    d.open_new(String::new(), "  /srv  ".into(), &[]);
    d.name = "here".into();
    d.shell = String::new();
    let users: Vec<AuthUser> = vec![];
    let draft = d.save_draft(&users);
    match draft.kind {
        DraftKind::Local { shell, working_dir } => {
            assert_eq!(shell, None);
            assert_eq!(working_dir.as_deref(), Some("/srv"));
        }
        _ => panic!("expected a local draft"),
    }
    assert!(matches!(d.footer_outcome(FooterAction::Cancel, &users), ConnectionFormOutcome::Cancelled));
    assert!(matches!(d.footer_outcome(FooterAction::Idle, &users), ConnectionFormOutcome::Nothing));
}

#[test]
fn ssh_form_needs_auth_user() {
    let mut d = NewConnectionDialog::new(&[]);
    d.name = "box".into();
    d.conn_type = ConnectionType::Ssh;
    d.ssh_host = "h".into();
    assert!(!d.can_create());
    d.selected_auth_user_id = Some("u".into());
    assert!(d.can_create());
    d.name = " ".into();
    assert!(!d.can_create());
}

#[test]
fn inline_dialog_saves_password() {
    let mut d = InlineConnectionDialog::default();
    d.name = "n".into();
    d.conn_type = ConnectionType::Ssh;
    d.ssh_host = "h".into();
    d.ssh_user = "me".into();
    d.ssh_password = "pw".into();
    d.ssh_port = "x".into();
    match d.button_outcome(false, true) {
        InlineOutcome::Saved(draft) => match draft.kind {
            DraftKind::Ssh { port, username, password, auth_user_id, .. } => {
                assert_eq!(port, 22);
                assert_eq!(username, "me");
                assert_eq!(password.as_deref(), Some("pw"));
                assert_eq!(auth_user_id, None);
            }
            _ => panic!("expected an SSH draft"),
        },
        _ => panic!("expected a saved draft"),
    }
    d.ssh_host = " ".into();
    assert!(matches!(d.button_outcome(true, true), InlineOutcome::Cancelled));
}

#[test]
fn env_rows_sorted_by_name() {
    let map = vec![("PATH".to_string(), "/bin".to_string()), ("HOME".to_string(), "/h".to_string()), ("B".to_string(), "b".to_string())];
    let rows = env_map_to_rows(&map);
    let names: Vec<&str> = rows.iter().map(|r| r.0.as_str()).collect();
    assert_eq!(names, vec!["B", "HOME", "PATH"]);
    let back = env_rows_to_map(&rows);
    assert_eq!(back.len(), 3);
}

#[test]
fn available_types_follow_platform() {
    let all = PlatformSupport { local_terminal: true, serial: true, ble: true };
    assert_eq!(available_types(all), vec![ConnectionType::Local, ConnectionType::Ssh, ConnectionType::Serial, ConnectionType::Ble]);
    let mobile = PlatformSupport { local_terminal: false, serial: false, ble: true };
    assert_eq!(available_types(mobile), vec![ConnectionType::Ssh, ConnectionType::Ble]);
    assert_eq!(supported_conn_type(ConnectionType::Local, mobile), ConnectionType::Ssh);
    assert_eq!(supported_conn_type(ConnectionType::Ble, mobile), ConnectionType::Ble);
}

#[test]
fn profile_dialog_trims_name_on_save() {
    let mut d = ProfileDialog {
        open: false,
        draft: TerminalProfile { id: String::new(), name: String::new(), is_default: false },
        is_new: false,
        request_name_focus: false,
        last_saved_id: None,
    };
    d.open_new(TerminalProfile { id: "p1".into(), name: "Default".into(), is_default: true });
    assert!(d.draft.name.is_empty());
    assert!(!d.draft.is_default);
    assert!(!d.can_save());
    d.draft.name = "  Dark ".into();
    assert!(d.can_save());
    let saved = d.save();
    assert_eq!(saved.name, "Dark");
    assert_eq!(d.last_saved_id.as_deref(), Some("p1"));
}

#[test]
fn favorite_command_dialog_needs_name_and_command() {
    let mut d = FavoriteCommandDialog::new();
    d.open_new();
    d.name = "list".into();
    assert!(!d.can_save());
    d.command = "ls -la".into();
    assert!(d.can_save());
}

#[test]
fn favorite_command_frames() {
    let mut d = FavoriteCommandDialog::new();
    d.open_new();
    d.name = " ls ".into();
    d.command = "ls -la".into();
    d.auto_execute = true;
    match d.finish_frame(FooterAction::Save, false) {
        FavoriteCommandOutcome::SavedNew { name, command, auto_execute } => {
            assert_eq!(name, "ls");
            assert_eq!(command, "ls -la");
            assert!(auto_execute);
        }
        _ => panic!("expected a new command"),
    }
    assert!(!d.open);
    let existing = FavoriteCommand { id: "c1".into(), name: "up".into(), command: "uptime".into(), auto_execute: false, sort_order: 3 };
    d.open_edit(&existing);
    assert!(matches!(d.finish_frame(FooterAction::Idle, false), FavoriteCommandOutcome::Nothing));
    assert!(d.open);
    match d.finish_frame(FooterAction::Save, false) {
        FavoriteCommandOutcome::Saved(c) => {
            assert_eq!(c.id, "c1");
            assert_eq!(c.sort_order, 3);
        }
        _ => panic!("expected the edited command"),
    }
    d.open_new();
    assert!(matches!(d.finish_frame(FooterAction::Save, false), FavoriteCommandOutcome::Nothing));
    assert!(d.open);
    assert!(matches!(d.finish_frame(FooterAction::Idle, true), FavoriteCommandOutcome::Nothing));
    assert!(!d.open);
}

#[test]
fn ble_scan_needs_permission() {
    let mut d = NewConnectionDialog::new(&[]);
    assert!(!d.start_ble_scan(false));
    assert!(!d.ble_scanning);
    assert!(d.ble_scan_error.is_some());
    assert!(d.start_ble_scan(true));
    assert!(d.ble_scanning);
    assert!(d.ble_scan_error.is_none());
    assert!(!d.start_ble_scan(true));
    d.poll_ble_scan(uishell::dialogs::BleScanEvent::Finished(Ok(vec!["dev-a".into(), "dev-b".into()])));
    assert!(!d.ble_scanning);
    assert_eq!(d.ble_device, "dev-a");
    assert!(d.start_ble_scan(true));
    d.poll_ble_scan(uishell::dialogs::BleScanEvent::Disconnected);
    assert!(!d.ble_scanning);
    assert!(d.ble_scan_error.is_some());
}

fn local_conn(id: &str, shell: Option<&str>) -> uishell::session::SavedConnection {
    uishell::session::SavedConnection {
        id: id.into(),
        name: id.into(),
        conn_type: ConnectionType::Local,
        shell: shell.map(String::from),
        working_dir: Some("/w".into()),
        ssh_host: None,
        ssh_port: None,
        ssh_user: None,
        ssh_password: None,
        auth_user_id: None,
        profile_id: None,
        serial_port: None,
        serial_baud: None,
        ble_device: None,
        env_vars: vec![],
        favorite: false,
        last_connected: None,
    }
}

#[test]
fn local_terminal_settings_apply() {
    let conns = vec![local_conn("a", Some("zsh")), local_conn("b", None)];
    let mut d = LocalTerminalSettingsDialog::default();
    d.open_for("sess", Some("b"), None, None, &conns, "bash");
    assert_eq!(d.shell, "");
    assert_eq!(d.working_dir, "/w");
    d.shell = "  fish ".into();
    d.working_dir = "   ".into();
    let a = d.apply(&conns);
    assert_eq!(a.session_id.as_deref(), Some("sess"));
    assert_eq!(a.base, Some(1));
    assert_eq!(a.shell.as_deref(), Some("fish"));
    assert_eq!(a.working_dir, None);
    assert!(!d.open);
    assert!(d.profile_id.is_none());
    d.open_for_home(&conns, None, "bash");
    assert_eq!(d.profile_id.as_deref(), Some("a"));
    assert_eq!(d.shell, "zsh");
    d.profile_id = Some("gone".into());
    let a = d.apply(&conns);
    assert_eq!(a.base, None);
    assert_eq!(a.session_id, None);
    d.open_for_home(&[], None, "sh");
    assert_eq!(d.shell, "sh");
    d.cancel();
    assert!(!d.open && d.shell.is_empty());
}

#[test]
fn closed_auth_user_dialog_saves_nothing() {
    let mut d = AuthUserDialog::new();
    d.name = "prod".into();
    d.username = "deploy".into();
    d.password = "secret".into();
    assert!(d.can_save());
    assert!(d.finish_frame(FooterAction::Save, false, [0u8; 16]).is_none());
    assert!(!d.open);
    assert_eq!(d.last_saved_id, None);
}

#[test]
fn blank_connection_form_is_not_saved() {
    let mut d = NewConnectionDialog::new(&[]);
    d.open_new("bash".into(), "/home/me".into(), &[]);
    d.name = "  ".into();
    let users: Vec<AuthUser> = vec![];
    assert!(matches!(d.footer_outcome(FooterAction::Save, &users), ConnectionFormOutcome::Nothing));
    d.name = "box".into();
    d.conn_type = ConnectionType::Ssh;
    d.ssh_host = "h".into();
    assert!(matches!(d.footer_outcome(FooterAction::Save, &users), ConnectionFormOutcome::Nothing));
    assert_eq!(d.name, "box");
}

#[test]
fn profile_dialog_frames() {
    let mut d = ProfileDialog {
        open: false,
        draft: TerminalProfile { id: "p1".into(), name: "Dark".into(), is_default: false },
        is_new: false,
        request_name_focus: false,
        last_saved_id: None,
    };
    assert!(matches!(d.finish_frame(FooterAction::Save, false), ProfileDialogOutcome::Nothing));
    assert_eq!(d.last_saved_id, None);
    d.open = true;
    d.draft.name = "   ".into();
    assert!(matches!(d.finish_frame(FooterAction::Save, false), ProfileDialogOutcome::Nothing));
    assert!(d.open);
    d.draft.name = " Dark ".into();
    match d.finish_frame(FooterAction::Save, false) {
        ProfileDialogOutcome::Saved(p) => {
            assert_eq!(p.name, "Dark");
            assert_eq!(p.id, "p1");
        }
        ProfileDialogOutcome::Nothing => panic!("expected a saved profile"),
    }
    assert!(!d.open);
    assert_eq!(d.last_saved_id.as_deref(), Some("p1"));
    d.open = true;
    assert!(matches!(d.finish_frame(FooterAction::Idle, true), ProfileDialogOutcome::Nothing));
    assert!(!d.open);
}

#[test]
fn env_rows_round_trip() {
    let m = vec![("PATH".to_string(), "/bin".to_string()), ("LANG".to_string(), "C".to_string())];
    let rows = env_map_to_rows(&m);
    let mut back = env_rows_to_map(&rows);
    back.sort();
    let mut want = m.clone();
    want.sort();
    assert_eq!(back, want);
}

#[test]
fn new_auth_user_id_comes_from_the_drawn_bytes() {
    let mut d = AuthUserDialog::new();
    d.open_new();
    d.name = "a".into();
    d.username = "b".into();
    d.password = "c".into();
    let saved = d.finish_frame(FooterAction::Save, false, [0u8; 16]).unwrap();
    assert_eq!(saved.id, "00000000-0000-4000-8000-000000000000");
    let mut d = AuthUserDialog::new();
    d.open_new();
    d.name = "a".into();
    d.username = "b".into();
    d.password = "c".into();
    let saved = d.finish_frame(FooterAction::Save, false, [0xffu8; 16]).unwrap();
    assert_eq!(saved.id, "ffffffff-ffff-4fff-bfff-ffffffffffff");
}
