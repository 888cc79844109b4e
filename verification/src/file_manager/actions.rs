//! What the context menus, the bottom action bar and the pane toolbar request.

use vstd::prelude::*;

use crate::file_manager::{opt_clip, FileClipboard, PaneOps, PaneOpsView};

verus! {

/// The rows a context-menu action applies to: the selection, or the right-clicked row
/// when nothing is selected.
pub open spec fn context_targets(selected: Seq<usize>, right_clicked: usize) -> Seq<usize> {
    if selected.len() == 0 {
        seq![right_clicked]
    } else {
        selected
    }
}

pub fn indices_for_context_action(selected: &Vec<usize>, right_clicked: usize) -> (r: Vec<usize>)
    ensures
        r@ == context_targets(selected@, right_clicked),
{
    if selected.len() == 0 {
        let mut v: Vec<usize> = Vec::new();
        v.push(right_clicked);
        assert(v@ =~= seq![right_clicked]);
        v
    } else {
        selected.clone()
    }
}

/// An entry of a row's context menu.
#[derive(Clone, Copy, PartialEq, Eq, Debug, Structural)]
pub enum RowMenuChoice {
    /// Shown for directories only.
    Open,
    Copy,
    Cut,
    Delete,
    Rename,
    Info,
}

/// The requests after choosing `choice` in the context menu of row `idx`: Open (on a
/// directory) asks to open it; Copy, Cut and Delete ask for it on the selection, or
/// on the row when nothing is selected; Rename and Info ask for the row. Open, Copy,
/// Cut and Delete also leave multi-select mode when it is on.
pub open spec fn row_menu_spec(
    before: PaneOpsView,
    selected: Seq<usize>,
    select_mode: bool,
    idx: usize,
    is_dir: bool,
    choice: RowMenuChoice,
) -> PaneOpsView {
    let targets = context_targets(selected, idx);
    let dismiss = before.dismiss_multiselect || select_mode;
    match choice {
        RowMenuChoice::Open => if is_dir {
            PaneOpsView { open_index: Some(idx), dismiss_multiselect: dismiss, ..before }
        } else {
            before
        },
        RowMenuChoice::Copy => PaneOpsView {
            bulk_copy: Some(targets),
            dismiss_multiselect: dismiss,
            ..before
        },
        RowMenuChoice::Cut => PaneOpsView {
            bulk_cut: Some(targets),
            dismiss_multiselect: dismiss,
            ..before
        },
        RowMenuChoice::Delete => PaneOpsView {
            bulk_delete: Some(targets),
            dismiss_multiselect: dismiss,
            ..before
        },
        RowMenuChoice::Rename => PaneOpsView { rename_index: Some(idx), ..before },
        RowMenuChoice::Info => PaneOpsView { info_index: Some(idx), ..before },
    }
}

/// Records the choice made in the context menu of row `idx` (of a local or the remote
/// pane).
pub fn apply_row_menu_choice(
    ops: &mut PaneOps,
    selected: &Vec<usize>,
    select_mode: bool,
    idx: usize,
    is_dir: bool,
    choice: RowMenuChoice,
)
    ensures
        final(ops)@ == row_menu_spec(old(ops)@, selected@, select_mode, idx, is_dir, choice),
{
    match choice {
        RowMenuChoice::Open => {
            if is_dir {
                ops.open_index = Some(idx);
                if select_mode {
                    ops.dismiss_multiselect = true;
                }
            }
        },
        RowMenuChoice::Copy => {
            ops.bulk_copy = Some(indices_for_context_action(selected, idx));
            if select_mode {
                ops.dismiss_multiselect = true;
            }
        },
        RowMenuChoice::Cut => {
            ops.bulk_cut = Some(indices_for_context_action(selected, idx));
            if select_mode {
                ops.dismiss_multiselect = true;
            }
        },
        RowMenuChoice::Delete => {
            ops.bulk_delete = Some(indices_for_context_action(selected, idx));
            if select_mode {
                ops.dismiss_multiselect = true;
            }
        },
        RowMenuChoice::Rename => {
            ops.rename_index = Some(idx);
        },
        RowMenuChoice::Info => {
            ops.info_index = Some(idx);
        },
    }
}

/// The context menu of the blank list area: Paste, when the clipboard holds something.
pub fn apply_blank_menu_paste(ops: &mut PaneOps, has_clipboard: bool)
    ensures
        final(ops)@ == (if has_clipboard {
            PaneOpsView { paste: true, ..old(ops)@ }
        } else {
            old(ops)@
        }),
{
    if has_clipboard {
        ops.paste = true;
    }
}

/// A button of the bottom action bar.
#[derive(Clone, Copy, PartialEq, Eq, Debug, Structural)]
pub enum BottomBarChoice {
    Copy,
    Cut,
    Delete,
    Paste,
    Cancel,
}

/// The bottom action bar, shown in multi-select mode or while the clipboard holds
/// something. In multi-select mode it offers Copy, Cut and Delete (on a non-empty
/// selection; each asks for it on the selection) and Cancel, and every one of them
/// leaves multi-select mode. Otherwise it offers Paste, which asks to paste, and
/// Cancel, which empties the clipboard. A button that is not offered changes nothing.
pub open spec fn bottom_bar_spec(
    before: PaneOpsView,
    clip: Option<crate::file_manager::ClipView>,
    selected: Seq<usize>,
    select_mode: bool,
    has_clipboard: bool,
    choice: BottomBarChoice,
) -> (PaneOpsView, Option<crate::file_manager::ClipView>) {
    if select_mode {
        match choice {
            BottomBarChoice::Copy => if selected.len() > 0 {
                (PaneOpsView { bulk_copy: Some(selected), dismiss_multiselect: true, ..before }, clip)
            } else {
                (before, clip)
            },
            BottomBarChoice::Cut => if selected.len() > 0 {
                (PaneOpsView { bulk_cut: Some(selected), dismiss_multiselect: true, ..before }, clip)
            } else {
                (before, clip)
            },
            BottomBarChoice::Delete => if selected.len() > 0 {
                (PaneOpsView { bulk_delete: Some(selected), dismiss_multiselect: true, ..before }, clip)
            } else {
                (before, clip)
            },
            BottomBarChoice::Cancel => (PaneOpsView { dismiss_multiselect: true, ..before }, clip),
            BottomBarChoice::Paste => (before, clip),
        }
    } else if has_clipboard {
        match choice {
            BottomBarChoice::Paste => (PaneOpsView { paste: true, ..before }, clip),
            BottomBarChoice::Cancel => (before, None),
            _ => (before, clip),
        }
    } else {
        (before, clip)
    }
}

/// Whether the bottom bar offers `choice`: in multi-select mode Copy, Cut and Delete
/// on a non-empty selection, and Cancel; otherwise, with a clipboard, Paste and
/// Cancel.
pub open spec fn bottom_bar_offers(
    selected: Seq<usize>,
    select_mode: bool,
    has_clipboard: bool,
    choice: BottomBarChoice,
) -> bool {
    if select_mode {
        choice == BottomBarChoice::Cancel || (choice != BottomBarChoice::Paste && selected.len() > 0)
    } else {
        has_clipboard && (choice == BottomBarChoice::Paste || choice == BottomBarChoice::Cancel)
    }
}

/// In multi-select mode every button the bar offers leaves multi-select mode, and
/// none of them touches the clipboard.
pub proof fn law_bottom_bar_click_ends_multiselect(
    before: PaneOpsView,
    clip: Option<crate::file_manager::ClipView>,
    selected: Seq<usize>,
    has_clipboard: bool,
    choice: BottomBarChoice,
)
    requires
        bottom_bar_offers(selected, true, has_clipboard, choice),
    ensures
        bottom_bar_spec(before, clip, selected, true, has_clipboard, choice).0.dismiss_multiselect,
        bottom_bar_spec(before, clip, selected, true, has_clipboard, choice).1 == clip,
{
}

/// Records a click on the bottom action bar.
pub fn apply_bottom_bar_choice(
    ops: &mut PaneOps,
    clipboard: &mut Option<FileClipboard>,
    selected: &Vec<usize>,
    select_mode: bool,
    has_clipboard: bool,
    choice: BottomBarChoice,
)
    ensures
        (final(ops)@, opt_clip(*final(clipboard))) == bottom_bar_spec(
            old(ops)@,
            opt_clip(*old(clipboard)),
            selected@,
            select_mode,
            has_clipboard,
            choice,
        ),
{
    if select_mode {
        let has_selection = selected.len() > 0;
        match choice {
            BottomBarChoice::Copy => {
                if has_selection {
                    ops.bulk_copy = Some(selected.clone());
                    ops.dismiss_multiselect = true;
                }
            },
            BottomBarChoice::Cut => {
                if has_selection {
                    ops.bulk_cut = Some(selected.clone());
                    ops.dismiss_multiselect = true;
                }
            },
            BottomBarChoice::Delete => {
                if has_selection {
                    ops.bulk_delete = Some(selected.clone());
                    ops.dismiss_multiselect = true;
                }
            },
            BottomBarChoice::Cancel => {
                ops.dismiss_multiselect = true;
            },
            BottomBarChoice::Paste => {},
        }
    } else if has_clipboard {
        match choice {
            BottomBarChoice::Paste => {
                ops.paste = true;
            },
            BottomBarChoice::Cancel => {
                *clipboard = None;
            },
            _ => {},
        }
    }
}

/// The multi-select checkbox of the pane toolbar was toggled to `now_on`; turning it
/// off clears the selection.
pub fn toggle_select_mode(select_mode: &mut bool, selected: &mut Vec<usize>, now_on: bool)
    ensures
        *final(select_mode) == now_on,
        final(selected)@ == (if now_on {
            old(selected)@
        } else {
            Seq::<usize>::empty()
        }),
{
    *select_mode = now_on;
    if !now_on {
        selected.clear();
    }
}

} // verus!
