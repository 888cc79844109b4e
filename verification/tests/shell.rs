use uishell::coordinator::ShellCoordinator;
use uishell::file_manager::{FileManagerAction, PaneOps};
use uishell::layout_state::{PaneId, ShellLayout, SplitAxis};
use uishell::messages::{FunctionAction, WorkspaceAction};
use uishell::session::{ConnectionType, FileManagerMode, FileManagerSessionInfo, TerminalSession, WorkspaceSession};
use uishell::settings::{shown_tab, SettingsTab, SettingsUiAction};
use uishell::function_pane::FunctionPane;
use uishell::shell_animations::{PreviewTarget, ShellAnimations, SlideTarget};
use uishell::shell::{close_overlay_after, shell_columns, AppShell, ShellRenderResult};
use uishell::terminal_view::{clamp_scroll_offset, settle_terminal_focus, FocusLock, port_button_label, size_label_text, size_label_visible, SizeLabelState};

fn term(id: &str) -> WorkspaceSession {
    WorkspaceSession::Terminal(TerminalSession {
        id: id.into(),
        conn_type: ConnectionType::Local,
        want_terminal_focus: false,
        terminal_had_focus: true,
    })
}

fn wants_focus(s: &WorkspaceSession) -> (bool, bool) {
    match s {
        WorkspaceSession::Terminal(t) => (t.want_terminal_focus, t.terminal_had_focus),
        WorkspaceSession::FileManager(_) => (false, false),
    }
}

#[test]
fn merge_prefers_newer_fields() {
    let mut a = FunctionAction::empty();
    a.select_session = Some("a".into());
    a.go_back = true;
    let mut b = FunctionAction::empty();
    b.select_session = Some("b".into());
    b.close_session = Some("c".into());
    a.merge_from(b);
    assert_eq!(a.select_session.as_deref(), Some("b"));
    assert_eq!(a.close_session.as_deref(), Some("c"));
    assert!(a.go_back);
    let mut e = FunctionAction::empty();
    e.merge_from(FunctionAction::default());
    assert!(e.select_session.is_none() && !e.go_back);
}

#[test]
fn select_session_focuses_its_pane() {
    let mut layout = ShellLayout::default();
    let a = layout.workspace.focused_pane;
    layout.workspace.assign_session(a, Some("one".into()));
    let b = layout.workspace.split_pane(a, SplitAxis::Horizontal, Some("two".into()), 1).unwrap();
    let mut act = FunctionAction::empty();
    act.select_session = Some("two".into());
    ShellCoordinator::apply_function(&mut layout, &act, false);
    assert_eq!(layout.workspace.focused_pane, b);
    let mut act = FunctionAction::empty();
    act.select_session = Some("three".into());
    ShellCoordinator::apply_function(&mut layout, &act, false);
    assert_eq!(layout.workspace.focused_session_id(), Some("three"));
    let mut act = FunctionAction::empty();
    act.close_session = Some("three".into());
    ShellCoordinator::apply_function(&mut layout, &act, false);
    assert!(!layout.workspace.is_session_visible("three"));
}

#[test]
fn workspace_actions_focus_and_minimize() {
    let mut layout = ShellLayout::default();
    let a = layout.workspace.focused_pane;
    let b = layout.workspace.split_pane(a, SplitAxis::Vertical, Some("x".into()), 1).unwrap();
    let mut act = WorkspaceAction::empty();
    act.focus_pane = Some(b);
    act.minimize_pane = Some(b);
    ShellCoordinator::apply_workspace(&mut layout, &act);
    assert_eq!(layout.workspace.pane_count(), 1);
    assert_eq!(layout.workspace.focused_pane, a);
}

#[test]
fn new_and_closed_sessions() {
    let mut layout = ShellLayout::default();
    ShellCoordinator::assign_new_session(&mut layout, "s1".into());
    assert_eq!(layout.workspace.focused_session_id(), Some("s1"));
    ShellCoordinator::on_sessions_closed(&mut layout, "s1");
    assert_eq!(layout.workspace.focused_session_id(), None);
    let pane = layout.workspace.focused_pane;
    ShellCoordinator::assign_session_to_pane(&mut layout, pane, "s2".into());
    assert_eq!(layout.workspace.focused_session_id(), Some("s2"));
}

#[test]
fn focus_sync_moves_keyboard_focus() {
    let mut shell: AppShell<u8> = AppShell::new();
    let pane = shell.layout.workspace.focused_pane;
    shell.layout.workspace.assign_session(pane, Some("b".into()));
    let mut sessions = vec![
        term("a"),
        term("b"),
        WorkspaceSession::FileManager(FileManagerSessionInfo { id: "f".into(), mode: FileManagerMode::LocalDual }),
    ];
    shell.sync_focus_change(&mut sessions);
    assert_eq!(wants_focus(&sessions[0]), (false, false));
    assert_eq!(wants_focus(&sessions[1]), (true, true));
    assert_eq!(shell.last_focused_pane, Some(pane));
    if let WorkspaceSession::Terminal(t) = &mut sessions[0] {
        t.want_terminal_focus = true;
    }
    shell.sync_focus_change(&mut sessions);
    assert_eq!(wants_focus(&sessions[0]), (true, false));
}

#[test]
fn split_gate_collapses_and_drops_drag() {
    let mut shell: AppShell<&str> = AppShell::from_settings(Some(250));
    assert_eq!(shell.layout.function_width, 250);
    let a = shell.layout.workspace.focused_pane;
    shell.layout.workspace.assign_session(a, Some("main".into()));
    shell.layout.workspace.split_pane(a, SplitAxis::Horizontal, Some("side".into()), 1).unwrap();
    shell.active_drag = Some("dragging");
    shell.function_pane.sync_width(1200);
    shell.sync_split_gate(2);
    assert_eq!(shell.layout.workspace.pane_count(), 2);
    assert_eq!(shell.active_drag, Some("dragging"));
    shell.sync_split_gate(1);
    assert_eq!(shell.layout.workspace.pane_count(), 1);
    assert_eq!(shell.layout.workspace.focused_session_id(), Some("main"));
    assert_eq!(shell.last_focused_pane, Some(shell.layout.workspace.focused_pane));
    assert_eq!(shell.active_drag, Some("dragging"));
    shell.sync_split_gate(0);
    assert_eq!(shell.active_drag, None);
    assert_eq!(shell.focused_session_id(), Some("main"));
}

#[test]
fn size_label_lingers_one_second() {
    let mut s = SizeLabelState::new();
    assert!(size_label_visible(&mut s, 80, 24, 0).visible);
    let f = size_label_visible(&mut s, 80, 24, 100);
    assert!(f.visible && f.repaint_after_linger);
    assert!(size_label_visible(&mut s, 80, 24, 1_099).visible);
    assert!(!size_label_visible(&mut s, 80, 24, 1_100).visible);
    assert!(size_label_visible(&mut s, 100, 30, 5_000).visible);
    assert_eq!(size_label_text(80, 24), "80×24");
}

#[test]
fn port_labels_mark_unread() {
    assert_eq!(port_button_label("COM1", 3, false), "COM1 •");
    assert_eq!(port_button_label("COM1", 3, true), "COM1");
    assert_eq!(port_button_label("COM2", 0, false), "COM2");
}

#[test]
fn settings_tabs() {
    assert_eq!(SettingsTab::all(), [SettingsTab::General, SettingsTab::Appearance, SettingsTab::Terminal, SettingsTab::Users]);
    assert_eq!(SettingsTab::default(), SettingsTab::General);
    assert_eq!(shown_tab(Some(SettingsTab::Users), SettingsTab::General), SettingsTab::Users);
    assert_eq!(shown_tab(None, SettingsTab::Terminal), SettingsTab::Terminal);
    let a = SettingsUiAction::default();
    assert!(!a.request_new_profile && a.delete_profile_id.is_none() && !a.auth_users.new);
}

#[test]
fn empty_results() {
    let r = ShellRenderResult::default();
    assert!(!r.settings_closed);
    assert!(r.function_action.select_session.is_none());
    assert!(!FileManagerAction::default().close);
    let ops = PaneOps::default();
    assert!(!ops.go_up && ops.bulk_copy.is_none());
    let _ = PaneId::new(3);
}

#[test]
fn shell_columns_and_overlay_closing() {
    let mut p = FunctionPane::new();
    p.sync_width(1000);
    assert_eq!(shell_columns(&p, false), (true, true));
    p.sync_width(500);
    assert_eq!(shell_columns(&p, false), (false, true));
    p.open_overlay();
    assert_eq!(shell_columns(&p, false), (true, false));
    assert_eq!(shell_columns(&p, true), (false, true));
    let mut a = FunctionAction::empty();
    a.select_session = Some("s".into());
    close_overlay_after(&mut p, &a, false);
    assert!(p.overlay_visible());
    close_overlay_after(&mut p, &a, true);
    assert!(!p.overlay_visible());
    p.open_overlay();
    let mut a = FunctionAction::empty();
    a.open_file_mgr = Some("c".into());
    close_overlay_after(&mut p, &a, true);
    assert!(!p.overlay_visible());
}

#[test]
fn drags_start_once() {
    let mut shell: AppShell<u32> = AppShell::new();
    shell.begin_drag(true, false, 1);
    assert_eq!(shell.active_drag, None);
    shell.begin_drag(true, true, 2);
    assert_eq!(shell.active_drag, Some(2));
    shell.begin_drag(true, true, 3);
    assert_eq!(shell.active_drag, Some(2));
    shell.sync_width(900);
    assert!(shell.function_pane.docked_visible());
}

#[test]
fn animations_start_at_rest() {
    let a = ShellAnimations::default();
    assert_eq!(a.page_slide, SlideTarget::Workspace);
    assert!(a.session_fade.is_empty());
    assert_eq!(a.preview_ratio, PreviewTarget::Centered);
    assert!(!a.preview_active);
}

#[test]
fn page_slide_follows_page() {
    let mut a = ShellAnimations::new();
    a.on_page_connections();
    assert_eq!(a.page_slide, SlideTarget::Connections);
    a.on_page_workspace();
    assert_eq!(a.page_slide, SlideTarget::Workspace);
}

#[test]
fn fade_in_restarts_a_running_fade() {
    let mut a = ShellAnimations::new();
    a.fade_in_pane(PaneId::new(3));
    a.fade_in_pane(PaneId::new(5));
    a.fade_in_pane(PaneId::new(3));
    assert_eq!(a.session_fade, vec![(PaneId::new(5), 1), (PaneId::new(3), 2)]);
    assert_eq!(a.fade_starts, 3);
    assert!(a.is_fading(PaneId::new(5)));
    assert!(!a.is_fading(PaneId::new(4)));
    a.end_fade(PaneId::new(3));
    assert_eq!(a.session_fade, vec![(PaneId::new(5), 1)]);
    assert!(!a.is_fading(PaneId::new(3)));
}

#[test]
fn end_preview_undoes_begin_preview() {
    let mut a = ShellAnimations::new();
    a.begin_preview();
    assert!(a.preview_active);
    assert_eq!(a.preview_ratio, PreviewTarget::Insert);
    a.end_preview();
    assert!(!a.preview_active);
    assert_eq!(a.preview_ratio, PreviewTarget::Centered);
}

fn local_term() -> TerminalSession {
    TerminalSession {
        id: "t".into(),
        conn_type: ConnectionType::Local,
        want_terminal_focus: true,
        terminal_had_focus: true,
    }
}

#[test]
fn terminal_focus_settles_each_frame() {
    let mut t = local_term();
    assert_eq!(settle_terminal_focus(&mut t, true, true, true), FocusLock::Surrender);
    assert!(!t.terminal_had_focus && !t.want_terminal_focus);
    let mut t = local_term();
    assert_eq!(settle_terminal_focus(&mut t, false, true, true), FocusLock::Lock);
    assert!(t.terminal_had_focus && t.want_terminal_focus);
    let mut t = local_term();
    assert_eq!(settle_terminal_focus(&mut t, false, true, false), FocusLock::Keep);
    assert!(!t.terminal_had_focus);
    let mut t = local_term();
    assert_eq!(settle_terminal_focus(&mut t, false, false, true), FocusLock::Keep);
    assert!(!t.terminal_had_focus && t.want_terminal_focus);
}

#[test]
fn scroll_offset_is_clamped() {
    assert_eq!(clamp_scroll_offset(40, false, 25), 25);
    assert_eq!(clamp_scroll_offset(10, false, 25), 10);
    assert_eq!(clamp_scroll_offset(10, true, 25), 0);
}

#[test]
fn empty_workspace_action_asks_nothing_of_the_terminal() {
    let a = WorkspaceAction::empty();
    assert!(matches!(a.terminal, uishell::messages::ConnectionViewAction::Idle));
    assert!(a.terminal_pane.is_none());
    assert!(matches!(WorkspaceAction::default().terminal, uishell::messages::ConnectionViewAction::Idle));
}
