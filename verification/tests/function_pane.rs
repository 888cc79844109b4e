use uishell::function_pane::files_view::{files_panel, files_target, FilesPanel, FilesTarget, SftpState};
use uishell::function_pane::monitor_view::fmt_uptime;
use uishell::function_pane::pages::FunctionPage;
use uishell::function_pane::{
    drag_split_enabled, files_tab_visible, monitor_tab_visible, settle_sidebar_page, split_enabled, FunctionPane,
};
use uishell::session::{ConnectionType, FileManagerMode, FileManagerSessionInfo, TerminalSession, WorkspaceSession};

fn term(id: &str, t: ConnectionType) -> WorkspaceSession {
    WorkspaceSession::Terminal(TerminalSession {
        id: id.into(),
        conn_type: t,
        want_terminal_focus: false,
        terminal_had_focus: false,
    })
}

fn files(id: &str) -> WorkspaceSession {
    WorkspaceSession::FileManager(FileManagerSessionInfo { id: id.into(), mode: FileManagerMode::SshSftp })
}

#[test]
fn tab_ids_round_trip() {
    for page in [FunctionPage::Active, FunctionPage::Connections, FunctionPage::Commands, FunctionPage::Files, FunctionPage::Monitor] {
        assert_eq!(FunctionPage::from_tab_id(page.as_tab_id()), page);
    }
    assert_eq!(FunctionPage::Monitor.as_tab_id(), 4);
    assert_eq!(FunctionPage::from_tab_id(99), FunctionPage::Active);
    assert_eq!(FunctionPage::default(), FunctionPage::Active);
}

#[test]
fn narrow_pane_uses_overlay() {
    let mut p = FunctionPane::new();
    p.sync_width(600);
    assert!(!p.docked_visible());
    p.hamburger_click();
    assert!(p.overlay_visible());
    p.hamburger_click();
    assert!(!p.overlay_visible());
    p.open_overlay();
    assert!(p.overlay_visible());
    p.sync_width(721);
    assert!(!p.overlay_visible());
    assert!(p.docked_visible());
}

#[test]
fn wide_threshold_is_exclusive() {
    let mut p = FunctionPane::new();
    p.sync_width(720);
    assert!(!p.docked_visible());
    p.sync_width(721);
    assert!(p.docked_visible());
    p.toggle_docked_sidebar();
    assert!(!p.docked_visible());
    assert!(!p.overlay_visible());
    p.hamburger_click();
    assert!(p.docked_visible());
    assert!(p.show_content_hamburger());
    p.close_overlay();
    assert!(!p.overlay_visible());
}

#[test]
fn split_gates() {
    let mut p = FunctionPane::new();
    p.sync_width(1000);
    assert!(!split_enabled(&p, 1));
    assert!(split_enabled(&p, 2));
    assert!(drag_split_enabled(&p, 1));
    assert!(!drag_split_enabled(&p, 0));
    p.sync_width(500);
    assert!(!split_enabled(&p, 3));
}

#[test]
fn files_and_monitor_tabs() {
    let mut p = FunctionPane::new();
    p.sync_width(1000);
    let sessions = vec![term("s", ConnectionType::Ssh), term("l", ConnectionType::Local), files("f")];
    assert!(files_tab_visible(&p, &sessions, Some("s")));
    assert!(monitor_tab_visible(&p, &sessions, Some("s")));
    assert!(files_tab_visible(&p, &sessions, Some("l")));
    assert!(!monitor_tab_visible(&p, &sessions, Some("l")));
    assert!(!files_tab_visible(&p, &sessions, Some("f")));
    assert!(!files_tab_visible(&p, &sessions, None));
    p.sync_width(700);
    assert!(!files_tab_visible(&p, &sessions, Some("s")));
}

#[test]
fn sidebar_page_falls_back_when_tab_hides() {
    let mut p = FunctionPane::new();
    p.sync_width(1000);
    let sessions = vec![term("s", ConnectionType::Ssh), term("l", ConnectionType::Local)];
    let mut page = FunctionPage::Monitor;
    let tabs = settle_sidebar_page(&p, &mut page, &sessions, Some("s"));
    assert_eq!(page, FunctionPage::Monitor);
    assert_eq!(tabs.len(), 5);
    let tabs = settle_sidebar_page(&p, &mut page, &sessions, Some("l"));
    assert_eq!(page, FunctionPage::Active);
    assert_eq!(tabs, vec![FunctionPage::Active, FunctionPage::Connections, FunctionPage::Commands, FunctionPage::Files]);
    let mut page = FunctionPage::Commands;
    let tabs = settle_sidebar_page(&p, &mut page, &sessions, None);
    assert_eq!(page, FunctionPage::Commands);
    assert_eq!(tabs.len(), 3);
}

#[test]
fn uptime_text() {
    assert_eq!(fmt_uptime(0), "0m");
    assert_eq!(fmt_uptime(59), "0m");
    assert_eq!(fmt_uptime(3_599), "59m");
    assert_eq!(fmt_uptime(3_600), "1h 0m");
    assert_eq!(fmt_uptime(7_320), "2h 2m");
    assert_eq!(fmt_uptime(86_400), "1d 0h");
    assert_eq!(fmt_uptime(2 * 86_400 + 5 * 3_600 + 59), "2d 5h");
}

#[test]
fn files_tab_targets_and_panels() {
    let sessions = vec![
        files("f"),
        term("ser", ConnectionType::Serial),
        term("ssh", ConnectionType::Ssh),
    ];
    assert_eq!(files_target(&sessions, None), FilesTarget::NoTerminal);
    assert_eq!(files_target(&sessions, Some("f")), FilesTarget::NoTerminal);
    assert_eq!(files_target(&sessions, Some("zz")), FilesTarget::NoTerminal);
    assert_eq!(files_target(&sessions, Some("ser")), FilesTarget::Unsupported);
    assert_eq!(files_target(&sessions, Some("ssh")), FilesTarget::Terminal(2));
    assert!(matches!(files_panel(true, SftpState::Failed("x".into()), None, true, false), FilesPanel::SftpFailed(e) if e == "x"));
    assert!(matches!(files_panel(true, SftpState::Connecting, None, true, false), FilesPanel::Connecting));
    assert!(matches!(files_panel(true, SftpState::Absent, Some("denied".into()), true, false), FilesPanel::SftpFailed(e) if e == "denied"));
    assert!(matches!(files_panel(false, SftpState::Absent, Some("e".into()), false, true), FilesPanel::Connecting));
    assert!(matches!(files_panel(false, SftpState::Absent, None, false, false), FilesPanel::WaitingCwd));
    assert!(matches!(files_panel(true, SftpState::Ready, None, true, false), FilesPanel::Browse));
}
