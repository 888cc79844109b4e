use uishell::file_manager::actions::{
    apply_blank_menu_paste, apply_bottom_bar_choice, apply_row_menu_choice, indices_for_context_action,
    toggle_select_mode, BottomBarChoice, RowMenuChoice,
};
use uishell::file_manager::list::{
    apply_selection_click, dismiss_multiselect, entry_label, handle_list_keyboard, toggle_index,
    ClickModifiers, ListKeys,
};
use uishell::file_manager::ops::{
    copy_local_indices, copy_remote_indices, cut_remote_indices, delete_local_indices,
    delete_remote_indices, finish_delete, go_to_parent_local, go_to_parent_remote, join_texts,
    local_paths_for_indices, open_local_entry, open_remote_entry, opposite_pane, parent_local,
    parent_remote, refresh_local_pane, refresh_remote_pane,
    remote_paths_for_indices, run_local_ops, run_remote_ops, selected_remote_paths, RemoteProbe,
};
use uishell::file_manager::paths::join_remote;
use uishell::file_manager::session::{
    f5_transfer, finish_pane_frame, copy_from_pane, finish_rename, paste_into_pane, rename_target, transfer_to_opposite_pane,
    FileManagerSession, PasteTarget, RenameTarget,
};
use uishell::file_manager::{
    FileActivePane, FileClipboard, FileClipboardMode, FileEntry, FilePaneState, PaneOps,
};
use uishell::session::FileManagerMode;

fn entry(name: &str, is_dir: bool) -> FileEntry {
    FileEntry { name: name.to_string(), is_dir }
}

fn pane(cwd: &str, entries: Vec<FileEntry>) -> FilePaneState {
    FilePaneState {
        cwd: cwd.to_string(),
        entries,
        selected: Vec::new(),
        focus_index: None,
        loading: false,
        error: None,
        select_mode: false,
    }
}

fn listing() -> Vec<FileEntry> {
    vec![entry("docs", true), entry("a.txt", false), entry("b.txt", false)]
}

fn sorted(mut v: Vec<usize>) -> Vec<usize> {
    v.sort();
    v
}

fn no_keys() -> ListKeys {
    ListKeys {
        a: false,
        c: false,
        x: false,
        v: false,
        delete: false,
        backspace: false,
        arrow_left: false,
        arrow_right: false,
        enter: false,
        space: false,
        arrow_up: false,
        arrow_down: false,
        ctrl: false,
        shift: false,
    }
}

#[test]
fn join_remote_adds_one_slash() {
    assert_eq!(join_remote("/home/u", "f"), "/home/u/f");
    assert_eq!(join_remote("/", "etc"), "/etc");
    assert_eq!(join_remote("/home/u/", "f"), "/home/u/f");
    assert_eq!(join_remote("", "f"), "/f");
}

#[test]
fn toggle_index_twice_restores_selection() {
    let mut sel = vec![1, 4];
    toggle_index(&mut sel, 3);
    assert_eq!(sorted(sel.clone()), vec![1, 3, 4]);
    toggle_index(&mut sel, 3);
    assert_eq!(sorted(sel.clone()), vec![1, 4]);
    toggle_index(&mut sel, 1);
    assert_eq!(sel, vec![4]);
}

#[test]
fn plain_click_selects_only_the_row() {
    let mut sel = vec![0, 2];
    let mut focus = None;
    let mut anchor = None;
    apply_selection_click(&mut sel, &mut focus, &mut anchor, false, 1, ClickModifiers { shift: false, ctrl: false });
    assert_eq!(sel, vec![1]);
    assert_eq!(focus, Some(1));
    assert_eq!(anchor, Some(1));
}

#[test]
fn shift_click_selects_range_from_anchor() {
    let mut sel = vec![];
    let mut focus = None;
    let mut anchor = Some(5);
    apply_selection_click(&mut sel, &mut focus, &mut anchor, false, 2, ClickModifiers { shift: true, ctrl: false });
    assert_eq!(sorted(sel), vec![2, 3, 4, 5]);
    assert_eq!(anchor, Some(5));
    assert_eq!(focus, Some(2));
}

#[test]
fn shift_click_without_anchor_selects_row() {
    let mut sel = vec![7];
    let mut focus = None;
    let mut anchor = None;
    apply_selection_click(&mut sel, &mut focus, &mut anchor, false, 2, ClickModifiers { shift: true, ctrl: false });
    assert_eq!(sel, vec![2]);
    assert_eq!(anchor, Some(2));
}

#[test]
fn ctrl_click_toggles_row() {
    let mut sel = vec![0];
    let mut focus = None;
    let mut anchor = None;
    apply_selection_click(&mut sel, &mut focus, &mut anchor, false, 2, ClickModifiers { shift: false, ctrl: true });
    assert_eq!(sorted(sel.clone()), vec![0, 2]);
    apply_selection_click(&mut sel, &mut focus, &mut anchor, true, 0, ClickModifiers { shift: false, ctrl: false });
    assert_eq!(sel, vec![2]);
    assert_eq!(anchor, Some(0));
}

#[test]
fn ctrl_a_selects_all_rows() {
    let entries = listing();
    let mut sel = vec![];
    let mut focus = Some(2);
    let mut anchor = None;
    let mut ops = PaneOps::new();
    let keys = ListKeys { a: true, ctrl: true, ..no_keys() };
    handle_list_keyboard(&entries, &mut sel, &mut focus, false, &mut anchor, &mut ops, keys);
    assert_eq!(sorted(sel), vec![0, 1, 2]);
    assert_eq!(focus, Some(0));
    assert_eq!(anchor, Some(0));
}

#[test]
fn ctrl_c_requests_copy_of_selection() {
    let entries = listing();
    let mut sel = vec![1, 2];
    let mut focus = None;
    let mut anchor = None;
    let mut ops = PaneOps::new();
    let keys = ListKeys { c: true, ctrl: true, ..no_keys() };
    handle_list_keyboard(&entries, &mut sel, &mut focus, true, &mut anchor, &mut ops, keys);
    assert_eq!(ops.bulk_copy, Some(vec![1, 2]));
    assert!(ops.dismiss_multiselect);
    assert_eq!(ops.bulk_cut, None);
}

#[test]
fn ctrl_x_with_empty_selection_requests_nothing() {
    let entries = listing();
    let mut sel = vec![];
    let mut focus = None;
    let mut anchor = None;
    let mut ops = PaneOps::new();
    let keys = ListKeys { x: true, ctrl: true, ..no_keys() };
    handle_list_keyboard(&entries, &mut sel, &mut focus, true, &mut anchor, &mut ops, keys);
    assert_eq!(ops.bulk_cut, None);
    assert!(!ops.dismiss_multiselect);
}

#[test]
fn ctrl_v_takes_precedence_over_delete() {
    let entries = listing();
    let mut sel = vec![0];
    let mut focus = None;
    let mut anchor = None;
    let mut ops = PaneOps::new();
    let keys = ListKeys { v: true, ctrl: true, delete: true, ..no_keys() };
    handle_list_keyboard(&entries, &mut sel, &mut focus, false, &mut anchor, &mut ops, keys);
    assert!(ops.paste);
    assert_eq!(ops.bulk_delete, None);
}

#[test]
fn delete_key_requests_delete() {
    let entries = listing();
    let mut sel = vec![2];
    let mut focus = None;
    let mut anchor = None;
    let mut ops = PaneOps::new();
    let keys = ListKeys { delete: true, ..no_keys() };
    handle_list_keyboard(&entries, &mut sel, &mut focus, false, &mut anchor, &mut ops, keys);
    assert_eq!(ops.bulk_delete, Some(vec![2]));
    assert!(!ops.dismiss_multiselect);
}

#[test]
fn backspace_goes_up() {
    let entries = listing();
    let mut sel = vec![];
    let mut focus = None;
    let mut anchor = None;
    let mut ops = PaneOps::new();
    handle_list_keyboard(&entries, &mut sel, &mut focus, false, &mut anchor, &mut ops, ListKeys { backspace: true, ..no_keys() });
    assert!(ops.go_up);
}

#[test]
fn enter_opens_focused_directory_only() {
    let entries = listing();
    let mut sel = vec![];
    let mut anchor = None;
    let mut ops = PaneOps::new();
    let mut focus = Some(1);
    handle_list_keyboard(&entries, &mut sel, &mut focus, false, &mut anchor, &mut ops, ListKeys { enter: true, ..no_keys() });
    assert_eq!(ops.open_index, None);
    let mut focus = Some(0);
    handle_list_keyboard(&entries, &mut sel, &mut focus, false, &mut anchor, &mut ops, ListKeys { arrow_right: true, ..no_keys() });
    assert_eq!(ops.open_index, Some(0));
}

#[test]
fn arrows_move_focus_within_list() {
    let entries = listing();
    let mut sel = vec![];
    let mut anchor = None;
    let mut ops = PaneOps::new();
    let mut focus = None;
    handle_list_keyboard(&entries, &mut sel, &mut focus, false, &mut anchor, &mut ops, ListKeys { arrow_up: true, ..no_keys() });
    assert_eq!(focus, Some(2));
    assert_eq!(sel, vec![2]);
    handle_list_keyboard(&entries, &mut sel, &mut focus, false, &mut anchor, &mut ops, ListKeys { arrow_down: true, ..no_keys() });
    assert_eq!(focus, Some(2));
    handle_list_keyboard(&entries, &mut sel, &mut focus, false, &mut anchor, &mut ops, ListKeys { arrow_up: true, shift: true, ..no_keys() });
    assert_eq!(focus, Some(1));
    assert_eq!(sorted(sel.clone()), vec![1, 2]);
    let mut focus = Some(0);
    handle_list_keyboard(&entries, &mut sel, &mut focus, false, &mut anchor, &mut ops, ListKeys { arrow_up: true, ..no_keys() });
    assert_eq!(focus, Some(0));
}

#[test]
fn space_toggles_in_select_mode() {
    let entries = listing();
    let mut sel = vec![];
    let mut anchor = None;
    let mut ops = PaneOps::new();
    let mut focus = Some(1);
    handle_list_keyboard(&entries, &mut sel, &mut focus, true, &mut anchor, &mut ops, ListKeys { space: true, ..no_keys() });
    assert_eq!(sel, vec![1]);
    assert_eq!(anchor, Some(1));
}

#[test]
fn empty_list_ignores_keyboard() {
    let entries: Vec<FileEntry> = vec![];
    let mut sel = vec![];
    let mut anchor = None;
    let mut ops = PaneOps::new();
    let mut focus = None;
    handle_list_keyboard(&entries, &mut sel, &mut focus, false, &mut anchor, &mut ops, ListKeys { backspace: true, ..no_keys() });
    assert!(!ops.go_up);
}

#[test]
fn entry_labels() {
    assert_eq!(entry_label(&entry("docs", true), true), "● ▸ docs");
    assert_eq!(entry_label(&entry("a.txt", false), false), "    a.txt");
}

#[test]
fn dismiss_clears_selection() {
    let mut p = pane("/", listing());
    p.select_mode = true;
    p.selected = vec![0, 1];
    dismiss_multiselect(&mut p);
    assert!(!p.select_mode);
    assert!(p.selected.is_empty());
}

#[test]
fn opposite_panes() {
    assert_eq!(opposite_pane(FileActivePane::Remote, FileManagerMode::SshSftp), FileActivePane::Right);
    assert_eq!(opposite_pane(FileActivePane::Right, FileManagerMode::SshSftp), FileActivePane::Remote);
    assert_eq!(opposite_pane(FileActivePane::LeftLocal, FileManagerMode::LocalDual), FileActivePane::Right);
    assert_eq!(opposite_pane(FileActivePane::Right, FileManagerMode::LocalDual), FileActivePane::LeftLocal);
    let p = opposite_pane(FileActivePane::Remote, FileManagerMode::SshSftp);
    assert_eq!(opposite_pane(p, FileManagerMode::SshSftp), FileActivePane::Remote);
}

#[test]
fn remote_paths_skip_missing_rows() {
    let r = pane("/srv", listing());
    assert_eq!(remote_paths_for_indices(&r, &[2, 9, 0]), vec!["/srv/b.txt".to_string(), "/srv/docs".to_string()]);
    let mut r2 = pane("/srv/", listing());
    r2.selected = vec![1];
    assert_eq!(selected_remote_paths(&r2), vec!["/srv/a.txt".to_string()]);
}

#[test]
fn copy_remote_rows_to_clipboard() {
    let r = pane("/srv", listing());
    let mut clip = None;
    let mut status = None;
    copy_remote_indices(&r, &[1, 2], &mut clip, &mut status);
    let c = clip.unwrap();
    assert_eq!(c.mode, FileClipboardMode::Copy);
    assert!(c.from_remote);
    assert_eq!(c.paths, vec!["/srv/a.txt".to_string(), "/srv/b.txt".to_string()]);
    assert_eq!(status.as_deref(), Some("Copied 2 item(s)"));
}

#[test]
fn cut_of_missing_rows_reports_no_items() {
    let r = pane("/srv", listing());
    let old = FileClipboard { mode: FileClipboardMode::Copy, from_remote: false, paths: vec!["x".into()] };
    let mut clip = Some(old);
    let mut status = None;
    cut_remote_indices(&r, &[5], &mut clip, &mut status);
    assert_eq!(clip.unwrap().paths, vec!["x".to_string()]);
    assert_eq!(status.as_deref(), Some("No items"));
}

#[test]
fn copy_local_rows_counts_paths() {
    let p = pane("/tmp", listing());
    let mut clip = None;
    let mut status = None;
    copy_local_indices(&p, &[0, 1, 2], &mut clip, &mut status);
    let c = clip.unwrap();
    assert_eq!(c.paths.len(), 3);
    assert!(!c.from_remote);
    assert_eq!(status.as_deref(), Some("Copied 3 item(s)"));
}

#[test]
fn open_remote_directory() {
    let mut r = pane("/srv", listing());
    r.selected = vec![1];
    r.focus_index = Some(1);
    open_remote_entry(&mut r, 0);
    assert_eq!(r.cwd, "/srv/docs");
    assert!(r.loading);
    assert!(r.selected.is_empty());
    assert_eq!(r.focus_index, None);
    let before = r.cwd.clone();
    open_remote_entry(&mut r, 1);
    assert_eq!(r.cwd, before);
}

#[test]
fn parent_of_remote_paths() {
    let mut r = pane("/srv/docs", listing());
    parent_remote(&mut r);
    assert_eq!(r.cwd, "/srv");
    let mut r = pane("/", listing());
    parent_remote(&mut r);
    assert_eq!(r.cwd, "/");
    let mut r = pane("docs", listing());
    go_to_parent_remote(&mut r, Some(String::new()));
    assert_eq!(r.cwd, "/");
    let mut r = pane("", listing());
    parent_remote(&mut r);
    assert_eq!(r.cwd, "");
}

#[test]
fn parent_of_local_path() {
    let mut p = pane("/a/b", listing());
    p.selected = vec![0];
    go_to_parent_local(&mut p, Some("/a".to_string()));
    assert_eq!(p.cwd, "/a");
    assert!(p.selected.is_empty());
    go_to_parent_local(&mut p, None);
    assert_eq!(p.cwd, "/a");
}

#[test]
fn delete_targets_flag_directories() {
    let r = pane("/srv", listing());
    let mut status = None;
    let t = delete_remote_indices(&r, &[0, 2], &mut status);
    assert_eq!(t, vec![("/srv/docs".to_string(), true), ("/srv/b.txt".to_string(), false)]);
    assert_eq!(status, None);
    let t = delete_remote_indices(&r, &[], &mut status);
    assert!(t.is_empty());
    assert_eq!(status.as_deref(), Some("No items"));
    let p = pane("/tmp", listing());
    let mut status = None;
    assert_eq!(delete_local_indices(&p, &[4], &mut status).len(), 0);
    assert_eq!(status.as_deref(), Some("No items"));
}

#[test]
fn finish_delete_reports() {
    let mut p = pane("/tmp", listing());
    let mut status = None;
    finish_delete(&mut p, 3, &[], &mut status);
    assert_eq!(status.as_deref(), Some("Deleted 3 item(s)"));
    assert!(p.loading);
    let mut p = pane("/tmp", listing());
    finish_delete(&mut p, 2, &["e1".to_string(), "e2".to_string()], &mut status);
    assert_eq!(status.as_deref(), Some("e1; e2"));
    assert!(!p.loading);
}

#[test]
fn join_texts_separates() {
    assert_eq!(join_texts(&[], "; "), "");
    assert_eq!(join_texts(&["a".to_string()], "; "), "a");
    assert_eq!(join_texts(&["a".to_string(), "b".to_string(), "c".to_string()], ", "), "a, b, c");
}

#[test]
fn refresh_takes_listing_only_when_loading() {
    let mut p = pane("/tmp", listing());
    refresh_local_pane(&mut p, Ok(vec![]));
    assert_eq!(p.entries.len(), 3);
    p.loading = true;
    refresh_local_pane(&mut p, Err("denied".into()));
    assert!(!p.loading);
    assert_eq!(p.error.as_deref(), Some("denied"));
    assert_eq!(p.entries.len(), 3);
    p.loading = true;
    refresh_local_pane(&mut p, Ok(vec![entry("z", false)]));
    assert_eq!(p.entries.len(), 1);
    assert_eq!(p.error, None);
}

#[test]
fn remote_refresh_follows_connection() {
    let mut r = pane("/", vec![]);
    r.loading = true;
    refresh_remote_pane(&mut r, RemoteProbe::Connecting);
    assert!(r.loading);
    refresh_remote_pane(&mut r, RemoteProbe::Failed("refused".into()));
    assert!(!r.loading);
    assert_eq!(r.error.as_deref(), Some("refused"));
    r.loading = true;
    refresh_remote_pane(&mut r, RemoteProbe::Listed(Ok(listing())));
    assert_eq!(r.entries.len(), 3);
    assert_eq!(r.error, None);
}

#[test]
fn context_targets() {
    assert_eq!(indices_for_context_action(&vec![], 4), vec![4]);
    assert_eq!(indices_for_context_action(&vec![1, 2], 4), vec![1, 2]);
}

#[test]
fn row_menu_choices() {
    let mut ops = PaneOps::new();
    apply_row_menu_choice(&mut ops, &vec![], true, 1, false, RowMenuChoice::Open);
    assert_eq!(ops.open_index, None);
    apply_row_menu_choice(&mut ops, &vec![], true, 0, true, RowMenuChoice::Open);
    assert_eq!(ops.open_index, Some(0));
    assert!(ops.dismiss_multiselect);
    let mut ops = PaneOps::new();
    apply_row_menu_choice(&mut ops, &vec![2], false, 1, false, RowMenuChoice::Cut);
    assert_eq!(ops.bulk_cut, Some(vec![2]));
    assert!(!ops.dismiss_multiselect);
    apply_row_menu_choice(&mut ops, &vec![2], false, 1, false, RowMenuChoice::Rename);
    assert_eq!(ops.rename_index, Some(1));
    apply_row_menu_choice(&mut ops, &vec![2], false, 1, false, RowMenuChoice::Info);
    assert_eq!(ops.info_index, Some(1));
}

#[test]
fn bottom_bar_choices() {
    let mut ops = PaneOps::new();
    let mut clip = Some(FileClipboard { mode: FileClipboardMode::Cut, from_remote: true, paths: vec![] });
    apply_bottom_bar_choice(&mut ops, &mut clip, &vec![], true, true, BottomBarChoice::Copy);
    assert_eq!(ops.bulk_copy, None);
    apply_bottom_bar_choice(&mut ops, &mut clip, &vec![3], true, true, BottomBarChoice::Delete);
    assert_eq!(ops.bulk_delete, Some(vec![3]));
    assert!(ops.dismiss_multiselect);
    let mut ops = PaneOps::new();
    apply_bottom_bar_choice(&mut ops, &mut clip, &vec![], false, true, BottomBarChoice::Paste);
    assert!(ops.paste);
    apply_bottom_bar_choice(&mut ops, &mut clip, &vec![], false, true, BottomBarChoice::Cancel);
    assert!(clip.is_none());
    let mut ops = PaneOps::new();
    apply_blank_menu_paste(&mut ops, false);
    assert!(!ops.paste);
}

#[test]
fn select_mode_off_clears_selection() {
    let mut mode = true;
    let mut sel = vec![1];
    toggle_select_mode(&mut mode, &mut sel, false);
    assert!(!mode);
    assert!(sel.is_empty());
}

#[test]
fn run_remote_ops_in_order() {
    let mut r = pane("/srv", listing());
    r.select_mode = true;
    r.selected = vec![1];
    let mut clip = None;
    let mut status = None;
    let mut ops = PaneOps::new();
    ops.open_index = Some(0);
    ops.bulk_copy = Some(vec![1]);
    ops.info_index = Some(2);
    ops.rename_index = Some(1);
    ops.dismiss_multiselect = true;
    let f = run_remote_ops(&mut r, &mut clip, &mut status, &mut ops);
    assert_eq!(r.cwd, "/srv/docs");
    assert!(r.loading);
    assert_eq!(clip.unwrap().paths, vec!["/srv/docs/a.txt".to_string()]);
    assert_eq!(f.info_path.as_deref(), Some("/srv/docs/b.txt"));
    assert_eq!(f.rename.as_deref(), Some("a.txt"));
    assert!(f.deletes.is_empty());
    assert!(!r.select_mode);
    assert_eq!(ops.open_index, None);
    assert_eq!(ops.bulk_copy, None);
}

#[test]
fn run_local_ops_collects_deletes() {
    let mut p = pane("/tmp", listing());
    let mut clip = None;
    let mut status = None;
    let mut ops = PaneOps::new();
    ops.bulk_delete = Some(vec![1, 2]);
    let f = run_local_ops(&mut p, &mut clip, &mut status, &mut ops);
    assert_eq!(f.deletes.len(), 2);
    assert!(f.info_path.is_none());
    assert_eq!(status, None);
}

fn sftp_session() -> FileManagerSession {
    let mut remote = pane("/srv", listing());
    remote.selected = vec![2];
    FileManagerSession {
        mode: FileManagerMode::SshSftp,
        active_pane: FileActivePane::Remote,
        remote: Some(remote),
        left_local: None,
        right: pane("/home/me", vec![]),
        clipboard: None,
        status: None,
        transfer_active: false,
    }
}

#[test]
fn paste_needs_clipboard_and_idle_transfer() {
    let mut s = sftp_session();
    assert!(paste_into_pane(&mut s, FileActivePane::Right).is_none());
    assert_eq!(s.status.as_deref(), Some("Clipboard is empty"));
    copy_from_pane(&mut s, FileActivePane::Remote);
    s.transfer_active = true;
    assert!(paste_into_pane(&mut s, FileActivePane::Right).is_none());
    assert_eq!(s.status.as_deref(), Some("Transfer already in progress"));
    s.transfer_active = false;
    let q = paste_into_pane(&mut s, FileActivePane::Right).unwrap();
    assert_eq!(q.target, PasteTarget::LocalRight);
    assert_eq!(q.local_dest.as_deref(), Some("/home/me"));
    assert_eq!(q.clip.paths, vec!["/srv/b.txt".to_string()]);
    assert!(paste_into_pane(&mut s, FileActivePane::LeftLocal).is_none());
}

#[test]
fn transfer_copies_and_pastes_across() {
    let mut s = sftp_session();
    let q = transfer_to_opposite_pane(&mut s).unwrap();
    assert_eq!(q.target, PasteTarget::LocalRight);
    assert!(q.clip.from_remote);
    assert_eq!(s.status.as_deref(), Some("Transferred to opposite pane"));
}

#[test]
fn rename_targets_and_outcome() {
    let mut s = sftp_session();
    match rename_target(&s, FileActivePane::Remote, "a.txt", "c.txt").unwrap() {
        RenameTarget::Remote { from, to } => {
            assert_eq!(from, "/srv/a.txt");
            assert_eq!(to, "/srv/c.txt");
        }
        RenameTarget::Local { .. } => panic!("expected a remote rename"),
    }
    assert!(matches!(rename_target(&s, FileActivePane::LeftLocal, "a", "b"), Err(e) if e == "No left pane"));
    assert!(finish_rename(&mut s, FileActivePane::Remote, "a.txt", "c.txt", Ok(())));
    assert_eq!(s.status.as_deref(), Some("Renamed \"a.txt\" → \"c.txt\""));
    assert!(s.remote.as_ref().unwrap().loading);
    assert!(!finish_rename(&mut s, FileActivePane::Right, "x", "y", Err("busy".into())));
    assert_eq!(s.status.as_deref(), Some("busy"));
}

#[test]
fn f5_waits_for_dialogs_and_transfers() {
    let mut s = sftp_session();
    assert!(f5_transfer(&mut s, true, false).is_none());
    assert!(s.clipboard.is_none());
    s.transfer_active = true;
    assert!(f5_transfer(&mut s, false, false).is_none());
    s.transfer_active = false;
    let q = f5_transfer(&mut s, false, false).unwrap();
    assert_eq!(q.target, PasteTarget::LocalRight);
    let r = finish_pane_frame(&mut s, FileActivePane::Right, true, false);
    assert!(r.is_none());
    assert_eq!(s.active_pane, FileActivePane::Right);
    let r = finish_pane_frame(&mut s, FileActivePane::Remote, false, true).unwrap();
    assert_eq!(r.target, PasteTarget::Remote);
    assert_eq!(r.remote_dest.as_deref(), Some("/srv"));
    assert_eq!(s.active_pane, FileActivePane::Right);
}

#[test]
fn local_paths_join_with_a_separator() {
    let p = pane("/home/user", listing());
    let paths = local_paths_for_indices(&p, &[1, 7, 0]);
    let sep = std::path::MAIN_SEPARATOR;
    assert_eq!(paths, vec![format!("/home/user{}a.txt", sep), format!("/home/user{}docs", sep)]);
    let p = pane("/home/user/", listing());
    assert_eq!(local_paths_for_indices(&p, &[2]), vec!["/home/user/b.txt".to_string()]);
}

#[test]
fn local_pane_opens_and_goes_up() {
    let mut p = pane("/home/user", listing());
    open_local_entry(&mut p, 0);
    assert_eq!(p.cwd, format!("/home/user{}docs", std::path::MAIN_SEPARATOR));
    assert!(p.loading);
    let mut p = pane("/home/user", listing());
    parent_local(&mut p);
    assert_eq!(p.cwd, "/home");
    parent_local(&mut p);
    assert_eq!(p.cwd, "/");
    parent_local(&mut p);
    assert_eq!(p.cwd, "/");
}
