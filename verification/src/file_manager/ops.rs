//! Clipboard, navigation and bulk operations of the file manager panes.

use vstd::prelude::*;

use crate::file_manager::list::{dismiss_multiselect_local, dismiss_multiselect_remote, dismissed};
use crate::file_manager::paths::{
    join_local, join_remote, join_remote_spec, joined_under, parent_ok, parent_path, plain_join,
};
use crate::file_manager::{
    opt_clip, ClipView, FileActivePane, FileClipboard, FileClipboardMode, FileEntry, FilePaneState,
    FilePaneView, PaneOps, PaneOpsView,
};
use crate::session::FileManagerMode;
use crate::text::{decimal, opt_chars, push_decimal, str_eq};

verus! {

// ---------------------------------------------------------------------------
// Panes
// ---------------------------------------------------------------------------

/// Whether `pane` is one of the two panes of a session in `mode`.
pub open spec fn pane_in_mode(pane: FileActivePane, mode: FileManagerMode) -> bool {
    match mode {
        FileManagerMode::SshSftp => pane != FileActivePane::LeftLocal,
        FileManagerMode::LocalDual => pane != FileActivePane::Remote,
    }
}

/// The pane across from `active`: with SFTP, the remote and the right pane face each
/// other; with two local panes, the left and the right one.
pub open spec fn opposite_pane_spec(active: FileActivePane, mode: FileManagerMode) -> FileActivePane {
    match mode {
        FileManagerMode::SshSftp => match active {
            FileActivePane::Remote => FileActivePane::Right,
            _ => FileActivePane::Remote,
        },
        FileManagerMode::LocalDual => match active {
            FileActivePane::LeftLocal => FileActivePane::Right,
            _ => FileActivePane::LeftLocal,
        },
    }
}

pub fn opposite_pane(active: FileActivePane, mode: FileManagerMode) -> (p: FileActivePane)
    ensures
        p == opposite_pane_spec(active, mode),
{
    match mode {
        FileManagerMode::SshSftp => match active {
            FileActivePane::Remote => FileActivePane::Right,
            _ => FileActivePane::Remote,
        },
        FileManagerMode::LocalDual => match active {
            FileActivePane::LeftLocal => FileActivePane::Right,
            _ => FileActivePane::LeftLocal,
        },
    }
}

/// The pane across from a pane of the session is another pane of the session, and
/// the pane across from it is the one we started from.
pub proof fn law_opposite_pane_involution(pane: FileActivePane, mode: FileManagerMode)
    requires
        pane_in_mode(pane, mode),
    ensures
        pane_in_mode(opposite_pane_spec(pane, mode), mode),
        opposite_pane_spec(pane, mode) != pane,
        opposite_pane_spec(opposite_pane_spec(pane, mode), mode) == pane,
{
}

// ---------------------------------------------------------------------------
// Paths of rows
// ---------------------------------------------------------------------------

/// The indices among `indices` that name a row of a listing of `len` rows, in order
/// (the others are skipped).
pub open spec fn existing_rows(len: nat, indices: Seq<usize>) -> Seq<usize>
    decreases indices.len(),
{
    if indices.len() == 0 {
        seq![]
    } else {
        let rest = existing_rows(len, indices.drop_last());
        if indices.last() < len {
            rest.push(indices.last())
        } else {
            rest
        }
    }
}

pub proof fn lemma_existing_rows_in_range(len: nat, indices: Seq<usize>)
    ensures
        forall|k: int|
            0 <= k < existing_rows(len, indices).len() ==> #[trigger] existing_rows(len, indices)[k]
                < len,
        existing_rows(len, indices).len() <= indices.len(),
    decreases indices.len(),
{
    if indices.len() > 0 {
        lemma_existing_rows_in_range(len, indices.drop_last());
    }
}

/// The remote paths of the rows `rows` of a listing of `cwd`.
pub open spec fn remote_paths_spec(cwd: Seq<char>, entries: Seq<FileEntry>, rows: Seq<usize>) -> Seq<
    Seq<char>,
> {
    rows.map_values(|i: usize| join_remote_spec(cwd, entries[i as int].name@))
}

/// The characters of each text.
pub open spec fn texts(v: Seq<String>) -> Seq<Seq<char>> {
    v.map_values(|s: String| s@)
}

/// The remote paths of the rows at `indices` that exist, in the order of `indices`.
pub fn remote_paths_for_indices(remote: &FilePaneState, indices: &[usize]) -> (r: Vec<String>)
    ensures
        texts(r@) == remote_paths_spec(
            remote.cwd@,
            remote.entries@,
            existing_rows(remote.entries@.len() as nat, indices@),
        ),
{
    let len = remote.entries.len();
    let mut out: Vec<String> = Vec::new();
    let mut k: usize = 0;
    while k < indices.len()
        invariant
            k <= indices@.len(),
            len == remote.entries@.len(),
            texts(out@) == remote_paths_spec(
                remote.cwd@,
                remote.entries@,
                existing_rows(len as nat, indices@.take(k as int)),
            ),
        decreases indices@.len() - k,
    {
        let i = indices[k];
        proof {
            assert(indices@.take(k + 1).drop_last() =~= indices@.take(k as int));
            assert(indices@.take(k + 1).last() == i);
        }
        if i < len {
            let p = join_remote(remote.cwd.as_str(), remote.entries[i].name.as_str());
            let ghost prev = out@;
            out.push(p);
            proof {
                let before = existing_rows(len as nat, indices@.take(k as int));
                let rows = existing_rows(len as nat, indices@.take(k + 1));
                assert(rows == before.push(i));
                let want = remote_paths_spec(remote.cwd@, remote.entries@, rows);
                assert(texts(prev) == remote_paths_spec(remote.cwd@, remote.entries@, before));
                assert(texts(prev).len() == prev.len());
                assert(remote_paths_spec(remote.cwd@, remote.entries@, before).len() == before.len());
                assert(prev.len() == before.len());
                assert forall|j: int| 0 <= j < out@.len() implies texts(out@)[j] == want[j] by {
                    if j < prev.len() {
                        assert(out@[j] == prev[j]);
                        assert(texts(prev)[j] == remote_paths_spec(remote.cwd@, remote.entries@, before)[j]);
                        assert(rows[j] == before[j]);
                    } else {
                        assert(rows[j] == i);
                    }
                }
                assert(texts(out@) =~= want);
            }
        }
        k = k + 1;
    }
    proof {
        assert(indices@.take(indices@.len() as int) =~= indices@);
    }
    out
}

/// Whether `paths` are the local paths of the rows `rows` of a listing in `cwd`: one
/// for each row, in order; for a plain name (see [`plain_join`]) the path is `cwd`, at
/// most one separator, then the row's name.
pub open spec fn local_paths_of(
    cwd: Seq<char>,
    entries: Seq<FileEntry>,
    rows: Seq<usize>,
    paths: Seq<Seq<char>>,
) -> bool {
    &&& paths.len() == rows.len()
    &&& forall|k: int|
        0 <= k < rows.len() && #[trigger] plain_join(cwd, entries[rows[k] as int].name@)
            ==> joined_under(cwd, entries[rows[k] as int].name@, paths[k])
}

/// The local paths of the rows at `indices` that exist, one for each, in the order of
/// `indices`.
pub fn local_paths_for_indices(pane: &FilePaneState, indices: &[usize]) -> (r: Vec<String>)
    ensures
        local_paths_of(
            pane.cwd@,
            pane.entries@,
            existing_rows(pane.entries@.len() as nat, indices@),
            texts(r@),
        ),
{
    let len = pane.entries.len();
    let mut out: Vec<String> = Vec::new();
    let mut k: usize = 0;
    while k < indices.len()
        invariant
            k <= indices@.len(),
            len == pane.entries@.len(),
            local_paths_of(
                pane.cwd@,
                pane.entries@,
                existing_rows(len as nat, indices@.take(k as int)),
                texts(out@),
            ),
        decreases indices@.len() - k,
    {
        let i = indices[k];
        proof {
            assert(indices@.take(k + 1).drop_last() =~= indices@.take(k as int));
            assert(indices@.take(k + 1).last() == i);
        }
        if i < len {
            let p = join_local(pane.cwd.as_str(), pane.entries[i].name.as_str());
            let ghost prev = out@;
            out.push(p);
            proof {
                let before = existing_rows(len as nat, indices@.take(k as int));
                let rows = existing_rows(len as nat, indices@.take(k + 1));
                assert(rows == before.push(i));
                assert(texts(out@) =~= texts(prev).push(p@));
                assert forall|j: int|
                    0 <= j < rows.len() && #[trigger] plain_join(pane.cwd@, pane.entries@[rows[j] as int].name@)
                        implies joined_under(pane.cwd@, pane.entries@[rows[j] as int].name@, texts(out@)[j]) by {
                    if j < before.len() {
                        assert(rows[j] == before[j]);
                        assert(texts(out@)[j] == texts(prev)[j]);
                    }
                }
            }
        }
        k = k + 1;
    }
    proof {
        assert(indices@.take(indices@.len() as int) =~= indices@);
    }
    out
}

/// The remote paths of the selected rows.
pub fn selected_remote_paths(remote: &FilePaneState) -> (r: Vec<String>)
    ensures
        texts(r@) == remote_paths_spec(
            remote.cwd@,
            remote.entries@,
            existing_rows(remote.entries@.len() as nat, remote.selected@),
        ),
{
    remote_paths_for_indices(remote, remote.selected.as_slice())
}

/// The local paths of the selected rows.
pub fn selected_local_paths(pane: &FilePaneState) -> (r: Vec<String>)
    ensures
        local_paths_of(
            pane.cwd@,
            pane.entries@,
            existing_rows(pane.entries@.len() as nat, pane.selected@),
            texts(r@),
        ),
{
    local_paths_for_indices(pane, pane.selected.as_slice())
}

// ---------------------------------------------------------------------------
// Clipboard
// ---------------------------------------------------------------------------

/// The status after `n` paths went to the clipboard.
pub open spec fn clipboard_status(mode: FileClipboardMode, n: nat) -> Seq<char> {
    match mode {
        FileClipboardMode::Copy => "Copied "@ + decimal(n) + " item(s)"@,
        FileClipboardMode::Cut => "Cut "@ + decimal(n) + " item(s)"@,
    }
}

/// Clipboard and status after putting `paths` on the clipboard with `mode`: with no
/// path, the clipboard stays and the status says "No items".
pub open spec fn clip_spec(
    paths: Seq<Seq<char>>,
    mode: FileClipboardMode,
    from_remote: bool,
    clip: Option<ClipView>,
) -> (Option<ClipView>, Option<Seq<char>>) {
    if paths.len() == 0 {
        (clip, Some("No items"@))
    } else {
        (Some(ClipView { mode, from_remote, paths }), Some(clipboard_status(mode, paths.len())))
    }
}

/// Puts `paths` on the clipboard with `mode`, or reports that there is nothing to put.
fn put_on_clipboard(
    paths: Vec<String>,
    mode: FileClipboardMode,
    from_remote: bool,
    clipboard: &mut Option<FileClipboard>,
    status: &mut Option<String>,
)
    ensures
        (opt_clip(*final(clipboard)), opt_chars(*final(status))) == clip_spec(
            texts(paths@),
            mode,
            from_remote,
            opt_clip(*old(clipboard)),
        ),
{
    let n = paths.len();
    if n == 0 {
        *status = Some(String::from_str("No items"));
        return;
    }
    let mut s = String::new();
    match mode {
        FileClipboardMode::Copy => s.append("Copied "),
        FileClipboardMode::Cut => s.append("Cut "),
    }
    push_decimal(&mut s, n as u64);
    s.append(" item(s)");
    assert(s@ =~= clipboard_status(mode, n as nat));
    *clipboard = Some(FileClipboard { mode, from_remote, paths });
    *status = Some(s);
}

/// Clipboard and status after copying or cutting the remote rows at `indices`.
pub open spec fn remote_clip_spec(
    v: FilePaneView,
    indices: Seq<usize>,
    mode: FileClipboardMode,
    clip: Option<ClipView>,
) -> (Option<ClipView>, Option<Seq<char>>) {
    clip_spec(
        remote_paths_spec(v.cwd, v.entries, existing_rows(v.entries.len() as nat, indices)),
        mode,
        true,
        clip,
    )
}

/// Whether clipboard and status `after` follow from putting the local paths of the
/// rows `rows` of a listing in `cwd` on the clipboard `clip` with `mode` (the paths as
/// in [`local_paths_of`]).
pub open spec fn local_clip_step(
    cwd: Seq<char>,
    entries: Seq<FileEntry>,
    rows: Seq<usize>,
    mode: FileClipboardMode,
    clip: Option<ClipView>,
    after: (Option<ClipView>, Option<Seq<char>>),
) -> bool {
    if rows.len() == 0 {
        after == (clip, Some("No items"@))
    } else {
        &&& after.1 == Some(clipboard_status(mode, rows.len()))
        &&& after.0 matches Some(c) && c.mode == mode && !c.from_remote && local_paths_of(
            cwd,
            entries,
            rows,
            c.paths,
        )
    }
}

/// Copies the remote paths of the rows at `indices` to the clipboard.
pub fn copy_remote_indices(
    remote: &FilePaneState,
    indices: &[usize],
    clipboard: &mut Option<FileClipboard>,
    status: &mut Option<String>,
)
    ensures
        (opt_clip(*final(clipboard)), opt_chars(*final(status))) == remote_clip_spec(
            remote@,
            indices@,
            FileClipboardMode::Copy,
            opt_clip(*old(clipboard)),
        ),
{
    let paths = remote_paths_for_indices(remote, indices);
    put_on_clipboard(paths, FileClipboardMode::Copy, true, clipboard, status);
}

/// Cuts the remote paths of the rows at `indices` to the clipboard.
pub fn cut_remote_indices(
    remote: &FilePaneState,
    indices: &[usize],
    clipboard: &mut Option<FileClipboard>,
    status: &mut Option<String>,
)
    ensures
        (opt_clip(*final(clipboard)), opt_chars(*final(status))) == remote_clip_spec(
            remote@,
            indices@,
            FileClipboardMode::Cut,
            opt_clip(*old(clipboard)),
        ),
{
    let paths = remote_paths_for_indices(remote, indices);
    put_on_clipboard(paths, FileClipboardMode::Cut, true, clipboard, status);
}

/// Copies the local paths of the rows at `indices` to the clipboard.
pub fn copy_local_indices(
    pane: &FilePaneState,
    indices: &[usize],
    clipboard: &mut Option<FileClipboard>,
    status: &mut Option<String>,
)
    ensures
        local_clip_step(
            pane.cwd@,
            pane.entries@,
            existing_rows(pane.entries@.len() as nat, indices@),
            FileClipboardMode::Copy,
            opt_clip(*old(clipboard)),
            (opt_clip(*final(clipboard)), opt_chars(*final(status))),
        ),
{
    let paths = local_paths_for_indices(pane, indices);
    put_on_clipboard(paths, FileClipboardMode::Copy, false, clipboard, status);
}

/// Cuts the local paths of the rows at `indices` to the clipboard.
pub fn cut_local_indices(
    pane: &FilePaneState,
    indices: &[usize],
    clipboard: &mut Option<FileClipboard>,
    status: &mut Option<String>,
)
    ensures
        local_clip_step(
            pane.cwd@,
            pane.entries@,
            existing_rows(pane.entries@.len() as nat, indices@),
            FileClipboardMode::Cut,
            opt_clip(*old(clipboard)),
            (opt_clip(*final(clipboard)), opt_chars(*final(status))),
        ),
{
    let paths = local_paths_for_indices(pane, indices);
    put_on_clipboard(paths, FileClipboardMode::Cut, false, clipboard, status);
}

// ---------------------------------------------------------------------------
// Navigation
// ---------------------------------------------------------------------------

/// The pane in directory `cwd`, with no selection and no focus.
pub open spec fn moved_to(v: FilePaneView, cwd: Seq<char>) -> FilePaneView {
    FilePaneView { cwd, selected: seq![], focus_index: None, ..v }
}

/// The remote pane after opening row `idx`: a directory row is entered and its
/// listing requested; any other index changes nothing.
pub open spec fn open_remote_spec(v: FilePaneView, idx: usize) -> FilePaneView {
    if idx < v.entries.len() && v.entries[idx as int].is_dir {
        FilePaneView {
            loading: true,
            ..moved_to(v, join_remote_spec(v.cwd, v.entries[idx as int].name@))
        }
    } else {
        v
    }
}

/// Enters the directory at row `idx` of the remote pane.
pub fn open_remote_entry(remote: &mut FilePaneState, idx: usize)
    ensures
        final(remote)@ == open_remote_spec(old(remote)@, idx),
{
    if idx >= remote.entries.len() {
        return;
    }
    if remote.entries[idx].is_dir {
        let cwd = join_remote(remote.cwd.as_str(), remote.entries[idx].name.as_str());
        remote.cwd = cwd;
        remote.loading = true;
        remote.selected.clear();
        remote.focus_index = None;
        assert(remote.selected@ =~= Seq::<usize>::empty());
    }
}

/// Whether `after` is the local pane `before` after opening row `idx`: a directory
/// row is entered and its listing requested; its path is the old directory, at most
/// one separator, then the row's name, where that name is plain (see [`plain_join`]);
/// any other index changes nothing.
pub open spec fn opened_local(before: FilePaneView, after: FilePaneView, idx: usize) -> bool {
    if idx < before.entries.len() && before.entries[idx as int].is_dir {
        &&& after == FilePaneView { loading: true, ..moved_to(before, after.cwd) }
        &&& plain_join(before.cwd, before.entries[idx as int].name@) ==> joined_under(
            before.cwd,
            before.entries[idx as int].name@,
            after.cwd,
        )
    } else {
        after == before
    }
}

/// Enters the directory at row `idx` of a local pane.
pub fn open_local_entry(pane: &mut FilePaneState, idx: usize)
    ensures
        opened_local(old(pane)@, final(pane)@, idx),
{
    if idx >= pane.entries.len() {
        return;
    }
    if pane.entries[idx].is_dir {
        let cwd = join_local(pane.cwd.as_str(), pane.entries[idx].name.as_str());
        pane.cwd = cwd;
        pane.loading = true;
        pane.selected.clear();
        pane.focus_index = None;
        assert(pane.selected@ =~= Seq::<usize>::empty());
    }
}

/// The remote pane after going up to `parent`: the root when the parent is empty;
/// nothing changes without a parent.
pub open spec fn remote_up_spec(v: FilePaneView, parent: Option<Seq<char>>) -> FilePaneView {
    match parent {
        Some(p) => moved_to(
            v,
            if p.len() == 0 {
                "/"@
            } else {
                p
            },
        ),
        None => v,
    }
}

/// Moves the remote pane to `parent`, the parent directory of its path.
pub fn go_to_parent_remote(remote: &mut FilePaneState, parent: Option<String>)
    ensures
        final(remote)@ == remote_up_spec(old(remote)@, opt_chars(parent)),
{
    if let Some(p) = parent {
        if p.unicode_len() == 0 {
            remote.cwd = String::from_str("/");
        } else {
            remote.cwd = p;
        }
        remote.selected.clear();
        remote.focus_index = None;
        assert(remote.selected@ =~= Seq::<usize>::empty());
    }
}

/// A local pane after going up to `parent`; nothing changes without a parent.
pub open spec fn local_up_spec(v: FilePaneView, parent: Option<Seq<char>>) -> FilePaneView {
    match parent {
        Some(p) => moved_to(v, p),
        None => v,
    }
}

/// Moves a local pane to `parent`, the parent directory of its path.
pub fn go_to_parent_local(pane: &mut FilePaneState, parent: Option<String>)
    ensures
        final(pane)@ == local_up_spec(old(pane)@, opt_chars(parent)),
{
    if let Some(p) = parent {
        pane.cwd = p;
        pane.selected.clear();
        pane.focus_index = None;
        assert(pane.selected@ =~= Seq::<usize>::empty());
    }
}

/// Moves the remote pane up to the parent of its directory (the root when the parent
/// is empty). The parent is a proper prefix of the path (see [`parent_ok`]); an empty
/// path has none and stays; a path ending in a plain name has one.
pub fn parent_remote(remote: &mut FilePaneState)
    ensures
        exists|parent: Option<Seq<char>>|
            parent_ok(old(remote)@.cwd, parent) && final(remote)@ == #[trigger] remote_up_spec(
                old(remote)@,
                parent,
            ),
{
    let parent = parent_path(remote.cwd.as_str());
    let ghost pv = opt_chars(parent);
    go_to_parent_remote(remote, parent);
    assert(parent_ok(old(remote)@.cwd, pv) && final(remote)@ == remote_up_spec(old(remote)@, pv));
}

/// Moves a local pane up to the parent of its directory. The parent is a proper
/// prefix of the path (see [`parent_ok`]); an empty path has none and stays; a path
/// ending in a plain name has one.
pub fn parent_local(pane: &mut FilePaneState)
    ensures
        exists|parent: Option<Seq<char>>|
            parent_ok(old(pane)@.cwd, parent) && final(pane)@ == #[trigger] local_up_spec(
                old(pane)@,
                parent,
            ),
{
    let parent = parent_path(pane.cwd.as_str());
    let ghost pv = opt_chars(parent);
    go_to_parent_local(pane, parent);
    assert(parent_ok(old(pane)@.cwd, pv) && final(pane)@ == local_up_spec(old(pane)@, pv));
}

// ---------------------------------------------------------------------------
// Deleting
// ---------------------------------------------------------------------------

/// Whether `path` is the remote path of a directory row of the listing.
pub open spec fn is_dir_path(cwd: Seq<char>, entries: Seq<FileEntry>, path: Seq<char>) -> bool {
    exists|j: int|
        0 <= j < entries.len() && (#[trigger] entries[j]).is_dir && join_remote_spec(
            cwd,
            entries[j].name@,
        ) == path
}

/// The remote paths to delete for the rows at `indices`, each with whether it is the
/// path of a directory row.
pub open spec fn remote_delete_spec(v: FilePaneView, indices: Seq<usize>) -> Seq<(Seq<char>, bool)> {
    remote_paths_spec(v.cwd, v.entries, existing_rows(v.entries.len() as nat, indices)).map_values(
        |p: Seq<char>| (p, is_dir_path(v.cwd, v.entries, p)),
    )
}

/// The characters of each path, with its flag.
pub open spec fn flagged_texts(v: Seq<(String, bool)>) -> Seq<(Seq<char>, bool)> {
    v.map_values(|x: (String, bool)| (x.0@, x.1))
}

/// Whether `path` is the remote path of a directory row of `remote`.
fn remote_path_is_dir(remote: &FilePaneState, path: &str) -> (b: bool)
    ensures
        b == is_dir_path(remote.cwd@, remote.entries@, path@),
{
    let mut j: usize = 0;
    while j < remote.entries.len()
        invariant
            j <= remote.entries@.len(),
            forall|k: int|
                0 <= k < j ==> !((#[trigger] remote.entries@[k]).is_dir && join_remote_spec(
                    remote.cwd@,
                    remote.entries@[k].name@,
                ) == path@),
        decreases remote.entries@.len() - j,
    {
        if remote.entries[j].is_dir {
            let p = join_remote(remote.cwd.as_str(), remote.entries[j].name.as_str());
            if str_eq(p.as_str(), path) {
                assert(remote.entries@[j as int].is_dir);
                return true;
            }
        }
        j = j + 1;
    }
    false
}

/// The remote paths to delete for the rows at `indices`, each with whether it is a
/// directory; with none, the status says "No items".
pub fn delete_remote_indices(
    remote: &FilePaneState,
    indices: &[usize],
    status: &mut Option<String>,
) -> (targets: Vec<(String, bool)>)
    ensures
        flagged_texts(targets@) == remote_delete_spec(remote@, indices@),
        opt_chars(*final(status)) == if targets@.len() == 0 {
            Some("No items"@)
        } else {
            opt_chars(*old(status))
        },
{
    let paths = remote_paths_for_indices(remote, indices);
    let ghost pv = texts(paths@);
    let mut out: Vec<(String, bool)> = Vec::new();
    let mut k: usize = 0;
    while k < paths.len()
        invariant
            k <= paths@.len(),
            pv == texts(paths@),
            pv == remote_paths_spec(
                remote.cwd@,
                remote.entries@,
                existing_rows(remote.entries@.len() as nat, indices@),
            ),
            flagged_texts(out@) == pv.take(k as int).map_values(
                |p: Seq<char>| (p, is_dir_path(remote.cwd@, remote.entries@, p)),
            ),
        decreases paths@.len() - k,
    {
        let is_dir = remote_path_is_dir(remote, paths[k].as_str());
        let path = String::from_str(paths[k].as_str());
        let ghost prev = out@;
        out.push((path, is_dir));
        proof {
            let f = |p: Seq<char>| (p, is_dir_path(remote.cwd@, remote.entries@, p));
            assert(pv[k as int] == paths@[k as int]@);
            assert(pv.take(k + 1) =~= pv.take(k as int).push(pv[k as int]));
            assert(flagged_texts(out@) =~= pv.take(k + 1).map_values(f)) by {
                assert(flagged_texts(prev) == pv.take(k as int).map_values(f));
                assert(flagged_texts(prev).len() == prev.len());
                assert forall|j: int| 0 <= j < out@.len() implies flagged_texts(out@)[j]
                    == pv.take(k + 1).map_values(f)[j] by {
                    if j < prev.len() {
                        assert(out@[j] == prev[j]);
                        assert(flagged_texts(prev)[j] == pv.take(k as int).map_values(f)[j]);
                    }
                }
            }
        }
        k = k + 1;
    }
    proof {
        assert(pv.take(pv.len() as int) =~= pv);
    }
    if out.len() == 0 {
        *status = Some(String::from_str("No items"));
    }
    out
}

/// The local paths to delete for the rows at `indices`, one for each row that exists;
/// with none, the status says "No items".
pub fn delete_local_indices(
    pane: &FilePaneState,
    indices: &[usize],
    status: &mut Option<String>,
) -> (targets: Vec<String>)
    ensures
        local_paths_of(
            pane.cwd@,
            pane.entries@,
            existing_rows(pane.entries@.len() as nat, indices@),
            texts(targets@),
        ),
        opt_chars(*final(status)) == if targets@.len() == 0 {
            Some("No items"@)
        } else {
            opt_chars(*old(status))
        },
{
    let paths = local_paths_for_indices(pane, indices);
    if paths.len() == 0 {
        *status = Some(String::from_str("No items"));
    }
    paths
}

/// `parts` separated by `sep` (`[String]::join`).
pub open spec fn joined(parts: Seq<Seq<char>>, sep: Seq<char>) -> Seq<char>
    decreases parts.len(),
{
    if parts.len() == 0 {
        seq![]
    } else if parts.len() == 1 {
        parts[0]
    } else {
        joined(parts.drop_last(), sep) + sep + parts.last()
    }
}

/// The status after deleting `n` paths with the errors `errors`.
pub open spec fn delete_status(n: nat, errors: Seq<Seq<char>>) -> Seq<char> {
    if errors.len() == 0 {
        "Deleted "@ + decimal(n) + " item(s)"@
    } else {
        joined(errors, "; "@)
    }
}

/// Joins texts with `sep` between them.
pub fn join_texts(parts: &[String], sep: &str) -> (r: String)
    ensures
        r@ == joined(texts(parts@), sep@),
{
    let mut r = String::new();
    let mut k: usize = 0;
    let ghost tv = texts(parts@);
    while k < parts.len()
        invariant
            k <= parts@.len(),
            tv == texts(parts@),
            r@ == joined(tv.take(k as int), sep@),
        decreases parts@.len() - k,
    {
        proof {
            assert(tv.take(k + 1).drop_last() =~= tv.take(k as int));
            assert(tv.take(k + 1).last() == parts@[k as int]@);
        }
        if k > 0 {
            r.append(sep);
        } else {
            assert(tv.take(1) =~= seq![parts@[0]@]);
        }
        r.append(parts[k].as_str());
        k = k + 1;
    }
    proof {
        assert(tv.take(tv.len() as int) =~= tv);
    }
    r
}

/// Reports the outcome of deleting `n` paths: on success, the count, and the listing
/// is requested again; otherwise the errors, separated by "; ".
pub fn finish_delete(pane: &mut FilePaneState, n: usize, errors: &[String], status: &mut Option<String>)
    ensures
        opt_chars(*final(status)) == Some(delete_status(n as nat, texts(errors@))),
        final(pane)@ == (FilePaneView {
            loading: old(pane)@.loading || errors@.len() == 0,
            ..old(pane)@
        }),
{
    if errors.len() == 0 {
        let mut s = String::new();
        s.append("Deleted ");
        push_decimal(&mut s, n as u64);
        s.append(" item(s)");
        assert(s@ =~= delete_status(n as nat, texts(errors@)));
        *status = Some(s);
        pane.loading = true;
    } else {
        let s = join_texts(errors, "; ");
        *status = Some(s);
    }
}

// ---------------------------------------------------------------------------
// Listings
// ---------------------------------------------------------------------------

/// The characters of a listing result.
pub open spec fn listing_view(r: Result<Vec<FileEntry>, String>) -> Result<Seq<FileEntry>, Seq<char>> {
    match r {
        Ok(e) => Ok(e@),
        Err(m) => Err(m@),
    }
}

/// A pane after its listing came back: the entries, or the error (the old entries
/// stay); no longer loading either way.
pub open spec fn listed_spec(v: FilePaneView, listing: Result<Seq<FileEntry>, Seq<char>>) -> FilePaneView {
    match listing {
        Ok(e) => FilePaneView { loading: false, entries: e, error: None, ..v },
        Err(m) => FilePaneView { loading: false, error: Some(m), ..v },
    }
}

/// Takes the listing of a local pane that asked for one.
pub fn refresh_local_pane(pane: &mut FilePaneState, listing: Result<Vec<FileEntry>, String>)
    ensures
        final(pane)@ == if old(pane)@.loading {
            listed_spec(old(pane)@, listing_view(listing))
        } else {
            old(pane)@
        },
{
    if !pane.loading {
        return;
    }
    pane.loading = false;
    match listing {
        Ok(entries) => {
            pane.entries = entries;
            pane.error = None;
        },
        Err(e) => {
            pane.error = Some(e);
        },
    }
}

/// What the SFTP connection says while the remote pane waits for a listing.
pub enum RemoteProbe {
    /// The connection failed with this error.
    Failed(String),
    /// The connection is up and listed the directory.
    Listed(Result<Vec<FileEntry>, String>),
    /// Still connecting.
    Connecting,
}

/// Takes what the connection says for a remote pane that asked for a listing: a failed
/// connection shows its error, a listing is taken in, and while connecting the pane
/// keeps waiting.
pub fn refresh_remote_pane(remote: &mut FilePaneState, probe: RemoteProbe)
    ensures
        final(remote)@ == (if !old(remote)@.loading {
            old(remote)@
        } else {
            match probe {
                RemoteProbe::Failed(e) => FilePaneView {
                    loading: false,
                    error: Some(e@),
                    ..old(remote)@
                },
                RemoteProbe::Listed(r) => listed_spec(old(remote)@, listing_view(r)),
                RemoteProbe::Connecting => old(remote)@,
            }
        }),
{
    if !remote.loading {
        return;
    }
    match probe {
        RemoteProbe::Failed(e) => {
            remote.loading = false;
            remote.error = Some(e);
        },
        RemoteProbe::Listed(r) => {
            remote.loading = false;
            match r {
                Ok(entries) => {
                    remote.entries = entries;
                    remote.error = None;
                },
                Err(e) => {
                    remote.error = Some(e);
                },
            }
        },
        RemoteProbe::Connecting => {},
    }
}

// ---------------------------------------------------------------------------
// Running the requests of a frame
// ---------------------------------------------------------------------------

/// The requests that running them consumes: the row to open, the copy, cut and delete
/// targets and the rename and info rows. Going up and leaving multi-select mode stay.
pub open spec fn taken_ops(o: PaneOpsView) -> PaneOpsView {
    PaneOpsView {
        open_index: None,
        bulk_copy: None,
        bulk_cut: None,
        bulk_delete: None,
        rename_index: None,
        info_index: None,
        ..o
    }
}

/// What is left to do on the remote side after running a pane's requests.
pub struct RemoteFollowUp {
    /// Paths to delete, each with whether it is a directory.
    pub deletes: Vec<(String, bool)>,
    /// Name of the row whose rename dialog is to be opened.
    pub rename: Option<String>,
    /// Path of the row whose information is to be shown.
    pub info_path: Option<String>,
}

/// What is left to do on a local pane after running its requests.
pub struct LocalFollowUp {
    /// Paths to delete.
    pub deletes: Vec<String>,
    /// Name of the row whose rename dialog is to be opened.
    pub rename: Option<String>,
    /// Path of the row whose information is to be shown.
    pub info_path: Option<String>,
}

/// The outcome of running a remote pane's requests.
pub struct RemoteRun {
    pub pane: FilePaneView,
    pub clip: Option<ClipView>,
    pub status: Option<Seq<char>>,
    pub deletes: Seq<(Seq<char>, bool)>,
    pub rename: Option<Seq<char>>,
    pub info: Option<Seq<char>>,
}

/// The name of row `idx`, when it exists.
pub open spec fn row_name(v: FilePaneView, idx: Option<usize>) -> Option<Seq<char>> {
    match idx {
        Some(i) => if i < v.entries.len() {
            Some(v.entries[i as int].name@)
        } else {
            None
        },
        None => None,
    }
}

/// Running the requests `o` of the remote pane `v0`, in order: go up (to `parent`, the
/// parent of its directory) and reload; open a row; copy, then cut, rows to the
/// clipboard; collect the rows to delete (reporting "No items" when none exist); name
/// the rows to rename and to inspect; leave multi-select mode.
pub open spec fn remote_run_spec(
    v0: FilePaneView,
    o: PaneOpsView,
    clip0: Option<ClipView>,
    status0: Option<Seq<char>>,
    parent: Option<Seq<char>>,
) -> RemoteRun {
    let v1 = if o.go_up {
        FilePaneView { loading: true, ..remote_up_spec(v0, parent) }
    } else {
        v0
    };
    let v2 = match o.open_index {
        Some(i) => open_remote_spec(v1, i),
        None => v1,
    };
    let c3 = match o.bulk_copy {
        Some(ix) => remote_clip_spec(v2, ix, FileClipboardMode::Copy, clip0),
        None => (clip0, status0),
    };
    let c4 = match o.bulk_cut {
        Some(ix) => remote_clip_spec(v2, ix, FileClipboardMode::Cut, c3.0),
        None => c3,
    };
    let deletes = match o.bulk_delete {
        Some(ix) => remote_delete_spec(v2, ix),
        None => seq![],
    };
    let status5 = if o.bulk_delete is Some && deletes.len() == 0 {
        Some("No items"@)
    } else {
        c4.1
    };
    RemoteRun {
        pane: if o.dismiss_multiselect {
            dismissed(v2)
        } else {
            v2
        },
        clip: c4.0,
        status: status5,
        deletes,
        rename: row_name(v2, o.rename_index),
        info: match row_name(v2, o.info_index) {
            Some(n) => Some(join_remote_spec(v2.cwd, n)),
            None => None,
        },
    }
}

/// Runs the requests of the remote pane for one frame (see [`remote_run_spec`]). Of
/// the parent directory, what [`parent_ok`] says is stated: a proper prefix of the
/// path, none for an empty path, one for a path that ends in a plain name.
pub fn run_remote_ops(
    remote: &mut FilePaneState,
    clipboard: &mut Option<FileClipboard>,
    status: &mut Option<String>,
    ops: &mut PaneOps,
) -> (f: RemoteFollowUp)
    ensures
        final(ops)@ == taken_ops(old(ops)@),
        exists|parent: Option<Seq<char>>|
            (old(ops)@.go_up ==> parent_ok(old(remote)@.cwd, parent)) && #[trigger] remote_run_spec(
                old(remote)@,
                old(ops)@,
                opt_clip(*old(clipboard)),
                opt_chars(*old(status)),
                parent,
            ) == (RemoteRun {
                pane: final(remote)@,
                clip: opt_clip(*final(clipboard)),
                status: opt_chars(*final(status)),
                deletes: flagged_texts(f.deletes@),
                rename: opt_chars(f.rename),
                info: opt_chars(f.info_path),
            }),
{
    let ghost v0 = remote@;
    let ghost o = ops@;
    let ghost mut parent_v: Option<Seq<char>> = None;
    if ops.go_up {
        let parent = parent_path(remote.cwd.as_str());
        proof {
            parent_v = opt_chars(parent);
        }
        go_to_parent_remote(remote, parent);
        remote.loading = true;
    }
    let open = ops.open_index.take();
    if let Some(i) = open {
        open_remote_entry(remote, i);
    }
    let ghost v2 = remote@;
    if let Some(indices) = ops.bulk_copy.take() {
        copy_remote_indices(remote, indices.as_slice(), clipboard, status);
    }
    if let Some(indices) = ops.bulk_cut.take() {
        cut_remote_indices(remote, indices.as_slice(), clipboard, status);
    }
    let deletes = match ops.bulk_delete.take() {
        Some(indices) => delete_remote_indices(remote, indices.as_slice(), status),
        None => Vec::new(),
    };
    let rename = match ops.rename_index.take() {
        Some(i) => if i < remote.entries.len() {
            Some(String::from_str(remote.entries[i].name.as_str()))
        } else {
            None
        },
        None => None,
    };
    let info_path = match ops.info_index.take() {
        Some(i) => if i < remote.entries.len() {
            Some(join_remote(remote.cwd.as_str(), remote.entries[i].name.as_str()))
        } else {
            None
        },
        None => None,
    };
    if ops.dismiss_multiselect {
        dismiss_multiselect_remote(remote);
    }
    let f = RemoteFollowUp { deletes, rename, info_path };
    proof {
        let r = remote_run_spec(v0, o, opt_clip(*old(clipboard)), opt_chars(*old(status)), parent_v);
        assert(r.pane == remote@);
        assert(r.deletes == flagged_texts(f.deletes@));
        assert(r.rename == opt_chars(f.rename));
        assert(r.info == opt_chars(f.info_path));
        assert(ops@ == taken_ops(o));
    }
    f
}

/// The local pane `v0` after going up (to `parent`) and opening a row (whose path is
/// `opened`), as in [`local_run_holds`].
pub open spec fn local_moved(
    v0: FilePaneView,
    o: PaneOpsView,
    parent: Option<Seq<char>>,
    opened: Seq<char>,
) -> FilePaneView {
    let v1 = if o.go_up {
        FilePaneView { loading: true, ..local_up_spec(v0, parent) }
    } else {
        v0
    };
    match o.open_index {
        Some(i) => if i < v1.entries.len() && v1.entries[i as int].is_dir {
            FilePaneView { loading: true, ..moved_to(v1, opened) }
        } else {
            v1
        },
        None => v1,
    }
}

/// Whether running the requests `o` of the local pane `v0` can have ended with the
/// pane `pane`, clipboard and status `after`, the paths `deletes` to delete, the row
/// name `rename` and the information path `info`, given the parent directory
/// `parent`, the path `opened` of an opened row, and the clipboard and status `mid`
/// after the copy step. The steps are those of [`remote_run_spec`]; of the texts of
/// local paths, what [`parent_ok`] and [`local_paths_of`] say is stated (the rest
/// follows the platform's path syntax).
pub open spec fn local_run_holds(
    v0: FilePaneView,
    o: PaneOpsView,
    before: (Option<ClipView>, Option<Seq<char>>),
    parent: Option<Seq<char>>,
    opened: Seq<char>,
    mid: (Option<ClipView>, Option<Seq<char>>),
    cut: (Option<ClipView>, Option<Seq<char>>),
    pane: FilePaneView,
    after: (Option<ClipView>, Option<Seq<char>>),
    deletes: Seq<Seq<char>>,
    rename: Option<Seq<char>>,
    info: Option<Seq<char>>,
) -> bool {
    let v1 = if o.go_up {
        FilePaneView { loading: true, ..local_up_spec(v0, parent) }
    } else {
        v0
    };
    let v2 = local_moved(v0, o, parent, opened);
    let rows = |ix: Seq<usize>| existing_rows(v2.entries.len() as nat, ix);
    &&& o.go_up ==> parent_ok(v0.cwd, parent)
    &&& match o.open_index {
        Some(i) => i < v1.entries.len() && v1.entries[i as int].is_dir && plain_join(
            v1.cwd,
            v1.entries[i as int].name@,
        ) ==> joined_under(v1.cwd, v1.entries[i as int].name@, opened),
        None => true,
    }
    &&& match o.bulk_copy {
        Some(ix) => local_clip_step(v2.cwd, v2.entries, rows(ix), FileClipboardMode::Copy, before.0, mid),
        None => mid == before,
    }
    &&& match o.bulk_cut {
        Some(ix) => local_clip_step(v2.cwd, v2.entries, rows(ix), FileClipboardMode::Cut, mid.0, cut),
        None => cut == mid,
    }
    &&& match o.bulk_delete {
        Some(ix) => local_paths_of(v2.cwd, v2.entries, rows(ix), deletes),
        None => deletes.len() == 0,
    }
    &&& after.0 == cut.0
    &&& after.1 == if o.bulk_delete is Some && deletes.len() == 0 {
        Some("No items"@)
    } else {
        cut.1
    }
    &&& rename == row_name(v2, o.rename_index)
    &&& match row_name(v2, o.info_index) {
        Some(n) => info matches Some(p) && (plain_join(v2.cwd, n) ==> joined_under(v2.cwd, n, p)),
        None => info is None,
    }
    &&& pane == if o.dismiss_multiselect {
        dismissed(v2)
    } else {
        v2
    }
}

/// Runs the requests of a local pane for one frame (see [`local_run_holds`]).
pub fn run_local_ops(
    pane: &mut FilePaneState,
    clipboard: &mut Option<FileClipboard>,
    status: &mut Option<String>,
    ops: &mut PaneOps,
) -> (f: LocalFollowUp)
    ensures
        final(ops)@ == taken_ops(old(ops)@),
        exists|
            parent: Option<Seq<char>>,
            opened: Seq<char>,
            mid: (Option<ClipView>, Option<Seq<char>>),
            cut: (Option<ClipView>, Option<Seq<char>>),
        |
            #[trigger] local_run_holds(
                old(pane)@,
                old(ops)@,
                (opt_clip(*old(clipboard)), opt_chars(*old(status))),
                parent,
                opened,
                mid,
                cut,
                final(pane)@,
                (opt_clip(*final(clipboard)), opt_chars(*final(status))),
                texts(f.deletes@),
                opt_chars(f.rename),
                opt_chars(f.info_path),
            ),
{
    let ghost v0 = pane@;
    let ghost o = ops@;
    let ghost before = (opt_clip(*clipboard), opt_chars(*status));
    let ghost mut parent_v: Option<Seq<char>> = None;
    let ghost mut opened_v: Seq<char> = seq![];
    if ops.go_up {
        let parent = parent_path(pane.cwd.as_str());
        proof {
            parent_v = opt_chars(parent);
        }
        go_to_parent_local(pane, parent);
        pane.loading = true;
    }
    let open = ops.open_index.take();
    if let Some(i) = open {
        open_local_entry(pane, i);
        proof {
            opened_v = pane@.cwd;
        }
    }
    assert(pane@ == local_moved(v0, o, parent_v, opened_v));
    if let Some(indices) = ops.bulk_copy.take() {
        copy_local_indices(pane, indices.as_slice(), clipboard, status);
    }
    let ghost mid = (opt_clip(*clipboard), opt_chars(*status));
    if let Some(indices) = ops.bulk_cut.take() {
        cut_local_indices(pane, indices.as_slice(), clipboard, status);
    }
    let ghost cut = (opt_clip(*clipboard), opt_chars(*status));
    let deletes = match ops.bulk_delete.take() {
        Some(indices) => delete_local_indices(pane, indices.as_slice(), status),
        None => Vec::new(),
    };
    assert(texts(deletes@).len() == deletes@.len());
    let rename = match ops.rename_index.take() {
        Some(i) => if i < pane.entries.len() {
            Some(String::from_str(pane.entries[i].name.as_str()))
        } else {
            None
        },
        None => None,
    };
    let info_path = match ops.info_index.take() {
        Some(i) => if i < pane.entries.len() {
            Some(join_local(pane.cwd.as_str(), pane.entries[i].name.as_str()))
        } else {
            None
        },
        None => None,
    };
    if ops.dismiss_multiselect {
        dismiss_multiselect_local(pane);
    }
    let f = LocalFollowUp { deletes, rename, info_path };
    assert(local_run_holds(
        v0,
        o,
        before,
        parent_v,
        opened_v,
        mid,
        cut,
        pane@,
        (opt_clip(*clipboard), opt_chars(*status)),
        texts(f.deletes@),
        opt_chars(f.rename),
        opt_chars(f.info_path),
    ));
    f
}

} // verus!
