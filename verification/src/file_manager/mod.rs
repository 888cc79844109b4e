//! File manager page — selection, clipboard and navigation logic of the dual-pane
//! file browser.

pub mod actions;
pub mod list;
pub mod ops;
pub mod paths;
pub mod session;

use vstd::prelude::*;

use crate::text::opt_chars;

verus! {

/// Result of the file manager view for one frame.
#[derive(Debug)]
pub struct FileManagerAction {
    /// Whether to close the file manager.
    pub close: bool,
}

/// One row of a directory listing.
#[derive(Clone, Debug)]
pub struct FileEntry {
    pub name: String,
    pub is_dir: bool,
}

/// Which pane of the file manager is active.
#[derive(Clone, Copy, PartialEq, Eq, Debug, Structural)]
pub enum FileActivePane {
    Remote,
    LeftLocal,
    Right,
}

/// Whether a clipboard paste copies or moves.
#[derive(Clone, Copy, PartialEq, Eq, Debug, Structural)]
pub enum FileClipboardMode {
    Copy,
    Cut,
}

/// Paths copied or cut from one pane.
#[derive(Clone, Debug)]
pub struct FileClipboard {
    pub mode: FileClipboardMode,
    pub from_remote: bool,
    pub paths: Vec<String>,
}

/// What a clipboard holds, with the paths taken as characters.
pub struct ClipView {
    pub mode: FileClipboardMode,
    pub from_remote: bool,
    pub paths: Seq<Seq<char>>,
}

impl View for FileClipboard {
    type V = ClipView;

    open spec fn view(&self) -> ClipView {
        ClipView {
            mode: self.mode,
            from_remote: self.from_remote,
            paths: self.paths@.map_values(|p: String| p@),
        }
    }
}

/// The view of an optional clipboard.
pub open spec fn opt_clip(o: Option<FileClipboard>) -> Option<ClipView> {
    match o {
        Some(c) => Some(c@),
        None => None,
    }
}

/// A directory pane (local, or the remote SFTP side).
#[derive(Clone, Debug)]
pub struct FilePaneState {
    /// Current directory.
    pub cwd: String,
    pub entries: Vec<FileEntry>,
    /// Selected rows (no row twice).
    pub selected: Vec<usize>,
    pub focus_index: Option<usize>,
    /// The listing must be (re)loaded.
    pub loading: bool,
    pub error: Option<String>,
    /// Multi-select mode.
    pub select_mode: bool,
}

/// What a pane shows, with its texts taken as characters.
pub struct FilePaneView {
    pub cwd: Seq<char>,
    pub entries: Seq<FileEntry>,
    pub selected: Seq<usize>,
    pub focus_index: Option<usize>,
    pub loading: bool,
    pub error: Option<Seq<char>>,
    pub select_mode: bool,
}

impl View for FilePaneState {
    type V = FilePaneView;

    open spec fn view(&self) -> FilePaneView {
        FilePaneView {
            cwd: self.cwd@,
            entries: self.entries@,
            selected: self.selected@,
            focus_index: self.focus_index,
            loading: self.loading,
            error: opt_chars(self.error),
            select_mode: self.select_mode,
        }
    }
}

/// The remote SFTP pane; the connection itself stays with the caller.
pub type RemotePane = FilePaneState;

/// Operations requested on a pane during one frame.
#[derive(Debug)]
pub struct PaneOps {
    pub go_up: bool,
    pub open_index: Option<usize>,
    pub paste: bool,
    /// Leave multi-select mode and clear row highlights (bottom bar / Cancel).
    pub dismiss_multiselect: bool,
    /// Copy / cut / delete targets (bottom bar, keyboard, or context menu).
    pub bulk_copy: Option<Vec<usize>>,
    pub bulk_cut: Option<Vec<usize>>,
    pub bulk_delete: Option<Vec<usize>>,
    pub rename_index: Option<usize>,
    pub info_index: Option<usize>,
    /// External files dropped onto this pane (desktop inbound).
    pub dropped_paths: Vec<String>,
    /// Local file rows dragged out (desktop outbound).
    pub drag_out_indices: Vec<usize>,
}

/// What a [`PaneOps`] requests, with the index lists taken as sequences.
pub struct PaneOpsView {
    pub go_up: bool,
    pub open_index: Option<usize>,
    pub paste: bool,
    pub dismiss_multiselect: bool,
    pub bulk_copy: Option<Seq<usize>>,
    pub bulk_cut: Option<Seq<usize>>,
    pub bulk_delete: Option<Seq<usize>>,
    pub rename_index: Option<usize>,
    pub info_index: Option<usize>,
    pub dropped_paths: Seq<Seq<char>>,
    pub drag_out_indices: Seq<usize>,
}

/// The view of an optional index list.
pub open spec fn opt_indices(o: Option<Vec<usize>>) -> Option<Seq<usize>> {
    match o {
        Some(v) => Some(v@),
        None => None,
    }
}

impl View for PaneOps {
    type V = PaneOpsView;

    open spec fn view(&self) -> PaneOpsView {
        PaneOpsView {
            go_up: self.go_up,
            open_index: self.open_index,
            paste: self.paste,
            dismiss_multiselect: self.dismiss_multiselect,
            bulk_copy: opt_indices(self.bulk_copy),
            bulk_cut: opt_indices(self.bulk_cut),
            bulk_delete: opt_indices(self.bulk_delete),
            rename_index: self.rename_index,
            info_index: self.info_index,
            dropped_paths: self.dropped_paths@.map_values(|p: String| p@),
            drag_out_indices: self.drag_out_indices@,
        }
    }
}

impl PaneOps {
    /// No request.
    pub open spec fn new_spec() -> PaneOpsView {
        PaneOpsView {
            go_up: false,
            open_index: None,
            paste: false,
            dismiss_multiselect: false,
            bulk_copy: None,
            bulk_cut: None,
            bulk_delete: None,
            rename_index: None,
            info_index: None,
            dropped_paths: seq![],
            drag_out_indices: seq![],
        }
    }

    pub fn new() -> (ops: PaneOps)
        ensures
            ops@ == PaneOps::new_spec(),
    {
        let ops = PaneOps {
            go_up: false,
            open_index: None,
            paste: false,
            dismiss_multiselect: false,
            bulk_copy: None,
            bulk_cut: None,
            bulk_delete: None,
            rename_index: None,
            info_index: None,
            dropped_paths: Vec::new(),
            drag_out_indices: Vec::new(),
        };
        assert(ops@.dropped_paths =~= Seq::<Seq<char>>::empty());
        assert(ops@.drag_out_indices =~= Seq::<usize>::empty());
        ops
    }
}


impl Default for FileManagerAction {
    fn default() -> (a: FileManagerAction)
        ensures
            !a.close,
    {
        FileManagerAction { close: false }
    }
}

impl Default for PaneOps {
    fn default() -> (ops: PaneOps)
        ensures
            ops@ == PaneOps::new_spec(),
    {
        PaneOps::new()
    }
}

} // verus!
