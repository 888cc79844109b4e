//! A file manager session: its panes, the clipboard between them, pasting and
//! renaming.

use vstd::prelude::*;

use crate::file_manager::ops::{
    clip_spec, local_paths_of, opposite_pane, opposite_pane_spec, remote_paths_spec,
    existing_rows, selected_local_paths, selected_remote_paths, texts,
};
use crate::file_manager::paths::{join_remote, join_remote_spec};
use crate::file_manager::{
    opt_clip, ClipView, FileActivePane, FileClipboard, FileClipboardMode, FilePaneState, FilePaneView,
};
use crate::session::FileManagerMode;
use crate::text::opt_chars;

verus! {

/// The state of a file manager session that its logic reads and changes; the SFTP
/// connection and the transfer worker stay with the caller.
pub struct FileManagerSession {
    pub mode: FileManagerMode,
    pub active_pane: FileActivePane,
    /// The remote pane (SFTP sessions).
    pub remote: Option<FilePaneState>,
    /// The left local pane (two local panes).
    pub left_local: Option<FilePaneState>,
    pub right: FilePaneState,
    pub clipboard: Option<FileClipboard>,
    pub status: Option<String>,
    /// A transfer is running.
    pub transfer_active: bool,
}

/// Where a paste goes.
#[derive(Clone, Copy, PartialEq, Eq, Debug, Structural)]
pub enum PasteTarget {
    Remote,
    LocalLeft,
    LocalRight,
}

/// A paste to start: the clipboard, and the directory it goes to.
pub struct PasteRequest {
    pub target: PasteTarget,
    pub clip: FileClipboard,
    /// Destination directory of a local paste.
    pub local_dest: Option<String>,
    /// Destination directory of a remote paste.
    pub remote_dest: Option<String>,
}

/// The other fields of the session are as before.
pub open spec fn same_panes(a: FileManagerSession, b: FileManagerSession) -> bool {
    &&& a.mode == b.mode
    &&& a.active_pane == b.active_pane
    &&& a.remote == b.remote
    &&& a.left_local == b.left_local
    &&& a.right == b.right
    &&& a.transfer_active == b.transfer_active
}

/// The clipboard after copying the selection of `pane`: the remote paths of the
/// selected rows of the remote pane; a local pane's selection gives one path per
/// selected row (see [`local_paths_of`]). No selected row, or a pane that the session
/// lacks, leaves the clipboard as it was.
pub open spec fn copied_from_pane(
    s: FileManagerSession,
    pane: FileActivePane,
    clip_after: Option<ClipView>,
) -> bool {
    let clip = opt_clip(s.clipboard);
    match pane {
        FileActivePane::Remote => match s.remote {
            Some(r) => clip_after == clip_spec(
                remote_paths_spec(r.cwd@, r.entries@, existing_rows(r.entries@.len() as nat, r.selected@)),
                FileClipboardMode::Copy,
                true,
                clip,
            ).0,
            None => clip_after == clip,
        },
        FileActivePane::LeftLocal => match s.left_local {
            Some(l) => local_copy(l, clip, clip_after),
            None => clip_after == clip,
        },
        FileActivePane::Right => local_copy(s.right, clip, clip_after),
    }
}

/// The clipboard after copying the selection of a local pane.
pub open spec fn local_copy(p: FilePaneState, clip: Option<ClipView>, clip_after: Option<ClipView>) -> bool {
    let rows = existing_rows(p.entries@.len() as nat, p.selected@);
    if rows.len() == 0 {
        clip_after == clip
    } else {
        clip_after matches Some(c) && c.mode == FileClipboardMode::Copy && !c.from_remote
            && local_paths_of(p.cwd@, p.entries@, rows, c.paths)
    }
}

/// Copies the selection of `pane` to the clipboard (the status stays).
pub fn copy_from_pane(session: &mut FileManagerSession, pane: FileActivePane)
    ensures
        same_panes(*final(session), *old(session)),
        final(session).status == old(session).status,
        copied_from_pane(*old(session), pane, opt_clip(final(session).clipboard)),
{
    let ghost s0 = *session;
    let clip: Option<(Vec<String>, bool)> = match pane {
        FileActivePane::Remote => match &session.remote {
            Some(remote) => Some((selected_remote_paths(remote), true)),
            None => None,
        },
        FileActivePane::LeftLocal => match &session.left_local {
            Some(left) => Some((selected_local_paths(left), false)),
            None => None,
        },
        FileActivePane::Right => Some((selected_local_paths(&session.right), false)),
    };
    if let Some((paths, from_remote)) = clip {
        if paths.len() > 0 {
            let ghost pv = texts(paths@);
            session.clipboard = Some(FileClipboard { mode: FileClipboardMode::Copy, from_remote, paths });
            assert(pv.len() == paths@.len());
        } else {
            assert(texts(paths@).len() == 0);
        }
    }
}

/// What pasting into `pane` asks for: nothing and "Clipboard is empty" without a
/// clipboard; nothing and "Transfer already in progress" while a transfer runs;
/// nothing for a pane the session lacks; otherwise a paste of the clipboard into the
/// pane's directory.
pub open spec fn paste_spec(
    s: FileManagerSession,
    pane: FileActivePane,
) -> (Option<(PasteTarget, Option<Seq<char>>, Option<Seq<char>>)>, Option<Seq<char>>) {
    if s.clipboard is None {
        (None, Some("Clipboard is empty"@))
    } else if s.transfer_active {
        (None, Some("Transfer already in progress"@))
    } else {
        let st = opt_chars(s.status);
        match pane {
            FileActivePane::Remote => match s.remote {
                Some(r) => (Some((PasteTarget::Remote, None, Some(r.cwd@))), st),
                None => (None, st),
            },
            FileActivePane::LeftLocal => match s.left_local {
                Some(l) => (Some((PasteTarget::LocalLeft, Some(l.cwd@), None)), st),
                None => (None, st),
            },
            FileActivePane::Right => (Some((PasteTarget::LocalRight, Some(s.right.cwd@), None)), st),
        }
    }
}

/// The target and directories of a paste request.
pub open spec fn request_view(r: Option<PasteRequest>) -> Option<
    (PasteTarget, Option<Seq<char>>, Option<Seq<char>>),
> {
    match r {
        Some(q) => Some((q.target, opt_chars(q.local_dest), opt_chars(q.remote_dest))),
        None => None,
    }
}

/// Asks to paste the clipboard into `pane` (see [`paste_spec`]); the request carries
/// the clipboard as it is.
pub fn paste_into_pane(session: &mut FileManagerSession, pane: FileActivePane) -> (r: Option<PasteRequest>)
    ensures
        same_panes(*final(session), *old(session)),
        final(session).clipboard == old(session).clipboard,
        (request_view(r), opt_chars(final(session).status)) == paste_spec(*old(session), pane),
        r matches Some(q) ==> opt_clip(old(session).clipboard) == Some(q.clip@),
{
    let clip = match &session.clipboard {
        Some(c) => FileClipboard {
            mode: c.mode,
            from_remote: c.from_remote,
            paths: copy_texts(&c.paths),
        },
        None => {
            session.status = Some(String::from_str("Clipboard is empty"));
            return None;
        },
    };
    if session.transfer_active {
        session.status = Some(String::from_str("Transfer already in progress"));
        return None;
    }
    match pane {
        FileActivePane::Remote => match &session.remote {
            Some(remote) => Some(
                PasteRequest {
                    target: PasteTarget::Remote,
                    clip,
                    local_dest: None,
                    remote_dest: Some(String::from_str(remote.cwd.as_str())),
                },
            ),
            None => None,
        },
        FileActivePane::LeftLocal => match &session.left_local {
            Some(left) => Some(
                PasteRequest {
                    target: PasteTarget::LocalLeft,
                    clip,
                    local_dest: Some(String::from_str(left.cwd.as_str())),
                    remote_dest: None,
                },
            ),
            None => None,
        },
        FileActivePane::Right => Some(
            PasteRequest {
                target: PasteTarget::LocalRight,
                clip,
                local_dest: Some(String::from_str(session.right.cwd.as_str())),
                remote_dest: None,
            },
        ),
    }
}

/// A copy of each text.
fn copy_texts(v: &Vec<String>) -> (r: Vec<String>)
    ensures
        texts(r@) == texts(v@),
{
    let mut r: Vec<String> = Vec::new();
    let mut k: usize = 0;
    while k < v.len()
        invariant
            k <= v@.len(),
            r@.len() == k,
            forall|j: int| 0 <= j < k ==> r@[j]@ == v@[j]@,
        decreases v@.len() - k,
    {
        r.push(String::from_str(v[k].as_str()));
        k = k + 1;
    }
    assert(texts(r@) =~= texts(v@));
    r
}

/// Copies the selection of the active pane and asks to paste it into the pane across
/// (F5); the status then says "Transferred to opposite pane".
pub fn transfer_to_opposite_pane(session: &mut FileManagerSession) -> (r: Option<PasteRequest>)
    ensures
        same_panes(*final(session), *old(session)),
        copied_from_pane(*old(session), old(session).active_pane, opt_clip(final(session).clipboard)),
        opt_chars(final(session).status) == Some("Transferred to opposite pane"@),
        request_view(r) == paste_spec(
            FileManagerSession { clipboard: final(session).clipboard, ..*old(session) },
            opposite_pane_spec(old(session).active_pane, old(session).mode),
        ).0,
        r matches Some(q) ==> opt_clip(final(session).clipboard) == Some(q.clip@),
{
    let active = session.active_pane;
    copy_from_pane(session, active);
    let dest = opposite_pane(active, session.mode);
    let r = paste_into_pane(session, dest);
    session.status = Some(String::from_str("Transferred to opposite pane"));
    r
}

/// F5 transfers the selection of the active pane to the pane across, unless a rename
/// or information dialog holds the keyboard or a transfer runs (then nothing
/// happens).
pub fn f5_transfer(session: &mut FileManagerSession, rename_open: bool, info_open: bool) -> (r: Option<
    PasteRequest,
>)
    ensures
        (rename_open || info_open || old(session).transfer_active) ==> (*final(session) == *old(session)
            && r is None),
        !(rename_open || info_open || old(session).transfer_active) ==> {
            &&& same_panes(*final(session), *old(session))
            &&& copied_from_pane(*old(session), old(session).active_pane, opt_clip(final(session).clipboard))
            &&& opt_chars(final(session).status) == Some("Transferred to opposite pane"@)
            &&& request_view(r) == paste_spec(
                FileManagerSession { clipboard: final(session).clipboard, ..*old(session) },
                opposite_pane_spec(old(session).active_pane, old(session).mode),
            ).0
        },
{
    if rename_open || info_open || session.transfer_active {
        return None;
    }
    transfer_to_opposite_pane(session)
}

/// After a pane's frame: a click in it makes it the active pane, and its paste
/// request pastes the clipboard into it.
pub fn finish_pane_frame(
    session: &mut FileManagerSession,
    pane: FileActivePane,
    clicked: bool,
    paste: bool,
) -> (r: Option<PasteRequest>)
    ensures
        final(session).active_pane == (if clicked {
            pane
        } else {
            old(session).active_pane
        }),
        final(session).mode == old(session).mode,
        final(session).remote == old(session).remote,
        final(session).left_local == old(session).left_local,
        final(session).right == old(session).right,
        final(session).clipboard == old(session).clipboard,
        final(session).transfer_active == old(session).transfer_active,
        paste ==> (request_view(r), opt_chars(final(session).status)) == paste_spec(*old(session), pane),
        !paste ==> r is None && final(session).status == old(session).status,
{
    if clicked {
        session.active_pane = pane;
    }
    if paste {
        paste_into_pane(session, pane)
    } else {
        None
    }
}

// ---------------------------------------------------------------------------
// Renaming
// ---------------------------------------------------------------------------

/// Where a rename happens.
pub enum RenameTarget {
    /// Rename the remote path `from` to `to`.
    Remote { from: String, to: String },
    /// Rename, in the local directory `dir`, the old name to the new one.
    Local { dir: String },
}

/// The pane to rename in, or the error when the session lacks it.
pub open spec fn rename_pane(s: FileManagerSession, pane: FileActivePane) -> Result<FilePaneState, Seq<char>> {
    match pane {
        FileActivePane::Remote => match s.remote {
            Some(r) => Ok(r),
            None => Err("No remote pane"@),
        },
        FileActivePane::LeftLocal => match s.left_local {
            Some(l) => Ok(l),
            None => Err("No left pane"@),
        },
        FileActivePane::Right => Ok(s.right),
    }
}

/// Where renaming `old_name` to `new_name` in `pane` happens: on the remote side, the
/// two joined paths; on a local side, the pane's directory.
pub fn rename_target(
    session: &FileManagerSession,
    pane: FileActivePane,
    old_name: &str,
    new_name: &str,
) -> (r: Result<RenameTarget, String>)
    ensures
        match rename_pane(*session, pane) {
            Err(e) => r matches Err(m) && m@ == e,
            Ok(p) => match r {
                Ok(RenameTarget::Remote { from, to }) => pane == FileActivePane::Remote && from@
                    == join_remote_spec(p.cwd@, old_name@) && to@ == join_remote_spec(p.cwd@, new_name@),
                Ok(RenameTarget::Local { dir }) => pane != FileActivePane::Remote && dir@ == p.cwd@,
                Err(_) => false,
            },
        },
{
    match pane {
        FileActivePane::Remote => match &session.remote {
            Some(remote) => Ok(
                RenameTarget::Remote {
                    from: join_remote(remote.cwd.as_str(), old_name),
                    to: join_remote(remote.cwd.as_str(), new_name),
                },
            ),
            None => Err(String::from_str("No remote pane")),
        },
        FileActivePane::LeftLocal => match &session.left_local {
            Some(left) => Ok(RenameTarget::Local { dir: String::from_str(left.cwd.as_str()) }),
            None => Err(String::from_str("No left pane")),
        },
        FileActivePane::Right => Ok(RenameTarget::Local { dir: String::from_str(session.right.cwd.as_str()) }),
    }
}

/// The status after renaming `old_name` to `new_name`.
pub open spec fn renamed_status(old_name: Seq<char>, new_name: Seq<char>) -> Seq<char> {
    "Renamed \""@ + old_name + "\" \u{2192} \""@ + new_name + "\""@
}

/// A pane whose listing is requested again.
pub open spec fn reloading(p: FilePaneState) -> FilePaneView {
    FilePaneView { loading: true, ..p@ }
}

/// `p` after a successful rename in it: reloading when the session has it.
pub open spec fn reloaded(before: Option<FilePaneState>, after: Option<FilePaneState>) -> bool {
    match before {
        Some(p) => after matches Some(q) && q@ == reloading(p),
        None => after is None,
    }
}

/// The session after the outcome of renaming `old_name` to `new_name` in `pane`: on
/// success the pane reloads and the status says what was renamed; a failure becomes
/// the status. Nothing else changes.
pub open spec fn renamed(
    s: FileManagerSession,
    t: FileManagerSession,
    pane: FileActivePane,
    old_name: Seq<char>,
    new_name: Seq<char>,
    outcome: Result<(), String>,
) -> bool {
    &&& t.mode == s.mode
    &&& t.active_pane == s.active_pane
    &&& t.clipboard == s.clipboard
    &&& t.transfer_active == s.transfer_active
    &&& match outcome {
        Err(e) => {
            &&& opt_chars(t.status) == Some(e@)
            &&& t.remote == s.remote
            &&& t.left_local == s.left_local
            &&& t.right == s.right
        },
        Ok(_) => {
            &&& opt_chars(t.status) == Some(renamed_status(old_name, new_name))
            &&& if pane == FileActivePane::Remote {
                reloaded(s.remote, t.remote)
            } else {
                t.remote == s.remote
            }
            &&& if pane == FileActivePane::LeftLocal {
                reloaded(s.left_local, t.left_local)
            } else {
                t.left_local == s.left_local
            }
            &&& if pane == FileActivePane::Right {
                t.right@ == reloading(s.right)
            } else {
                t.right == s.right
            }
        },
    }
}

/// Takes the outcome of a rename in `pane`: on success the pane reloads, the status
/// says what was renamed and the dialog may close (the result is `true`); a failure
/// becomes the status.
pub fn finish_rename(
    session: &mut FileManagerSession,
    pane: FileActivePane,
    old_name: &str,
    new_name: &str,
    outcome: Result<(), String>,
) -> (close: bool)
    ensures
        close == outcome is Ok,
        renamed(*old(session), *final(session), pane, old_name@, new_name@, outcome),
{
    match outcome {
        Err(e) => {
            session.status = Some(e);
            false
        },
        Ok(()) => {
            match pane {
                FileActivePane::Remote => {
                    if let Some(remote) = &mut session.remote {
                        remote.loading = true;
                    }
                },
                FileActivePane::LeftLocal => {
                    if let Some(left) = &mut session.left_local {
                        left.loading = true;
                    }
                },
                FileActivePane::Right => {
                    session.right.loading = true;
                },
            }
            let mut s = String::new();
            s.append("Renamed \"");
            s.append(old_name);
            s.append("\" \u{2192} \"");
            s.append(new_name);
            s.append("\"");
            assert(s@ =~= renamed_status(old_name@, new_name@));
            session.status = Some(s);
            true
        },
    }
}

} // verus!
