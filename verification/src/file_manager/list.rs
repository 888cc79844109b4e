//! Row selection of a file list: clicks and keyboard navigation.

use vstd::prelude::*;

use crate::file_manager::{FileEntry, FilePaneState, FilePaneView, PaneOps, PaneOpsView};

verus! {

/// The rows from `lo` to `hi`, both included.
pub open spec fn range_set(lo: usize, hi: usize) -> Set<usize> {
    Set::new(|i: usize| lo <= i <= hi)
}

/// The smaller of two indices.
pub open spec fn min_index(a: usize, b: usize) -> usize {
    if a < b {
        a
    } else {
        b
    }
}

/// The larger of two indices.
pub open spec fn max_index(a: usize, b: usize) -> usize {
    if a < b {
        b
    } else {
        a
    }
}

/// Flips whether row `idx` is selected.
pub fn toggle_index(selected: &mut Vec<usize>, idx: usize)
    requires
        old(selected)@.no_duplicates(),
    ensures
        final(selected)@.no_duplicates(),
        final(selected)@.to_set() == if old(selected)@.contains(idx) {
            old(selected)@.to_set().remove(idx)
        } else {
            old(selected)@.to_set().insert(idx)
        },
{
    let ghost s = selected@;
    let mut p: usize = 0;
    while p < selected.len()
        invariant
            selected@ == s,
            s == old(selected)@,
            s.no_duplicates(),
            p <= s.len(),
            forall|k: int| 0 <= k < p ==> s[k] != idx,
        decreases s.len() - p,
    {
        if selected[p] == idx {
            selected.remove(p);
            proof {
                let r = s.remove(p as int);
                assert(selected@ =~= r);
                assert forall|a: int, b: int| 0 <= a < b < r.len() implies r[a] != r[b] by {
                    let a0 = if a < p { a } else { a + 1 };
                    let b0 = if b < p { b } else { b + 1 };
                    assert(r[a] == s[a0]);
                    assert(r[b] == s[b0]);
                }
                assert(s.contains(idx));
                assert forall|i: usize| #[trigger] r.to_set().contains(i) <==> s.to_set().remove(idx).contains(i) by {
                    if r.contains(i) {
                        let k = choose|k: int| 0 <= k < r.len() && r[k] == i;
                        let k0 = if k < p { k } else { k + 1 };
                        assert(s[k0] == i);
                        assert(k0 != p);
                    }
                    if s.contains(i) && i != idx {
                        let k = choose|k: int| 0 <= k < s.len() && s[k] == i;
                        assert(k != p);
                        if k < p {
                            assert(r[k] == i);
                        } else {
                            assert(r[k - 1] == i);
                        }
                    }
                }
                assert(r.to_set() =~= s.to_set().remove(idx));
            }
            return;
        }
        p = p + 1;
    }
    selected.push(idx);
    proof {
        let r = s.push(idx);
        assert(!s.contains(idx));
        assert forall|a: int, b: int| 0 <= a < b < r.len() implies r[a] != r[b] by {
            assert(r[a] == s[a]);
            if b < s.len() {
                assert(r[b] == s[b]);
            }
        }
        assert forall|i: usize| #[trigger] r.to_set().contains(i) <==> s.to_set().insert(idx).contains(i) by {
            if r.contains(i) {
                let k = choose|k: int| 0 <= k < r.len() && r[k] == i;
                if k < s.len() {
                    assert(s[k] == i);
                }
            }
            if s.contains(i) {
                let k = choose|k: int| 0 <= k < s.len() && s[k] == i;
                assert(r[k] == i);
            }
            if i == idx {
                assert(r[s.len() as int] == idx);
            }
        }
        assert(r.to_set() =~= s.to_set().insert(idx));
    }
}

/// Replaces the selection by the rows from `lo` to `hi`.
fn select_range(selected: &mut Vec<usize>, lo: usize, hi: usize)
    requires
        lo <= hi,
    ensures
        final(selected)@.no_duplicates(),
        final(selected)@.to_set() == range_set(lo, hi),
{
    let mut v: Vec<usize> = Vec::new();
    let mut i: usize = lo;
    loop
        invariant_except_break
            lo <= i <= hi,
            v@.len() == i - lo,
            forall|k: int| 0 <= k < v@.len() ==> v@[k] == lo + k,
        ensures
            v@.len() == hi - lo + 1,
            forall|k: int| 0 <= k < v@.len() ==> v@[k] == lo + k,
        decreases hi - i,
    {
        v.push(i);
        if i == hi {
            break;
        }
        i = i + 1;
    }
    proof {
        assert forall|a: int, b: int| 0 <= a < b < v@.len() implies v@[a] != v@[b] by {}
        assert forall|j: usize| #[trigger] v@.to_set().contains(j) <==> range_set(lo, hi).contains(j) by {
            if lo <= j <= hi {
                assert(v@[j - lo] == j);
            }
        }
        assert(v@.to_set() =~= range_set(lo, hi));
    }
    *selected = v;
}

/// Makes row `idx` the only selected row.
fn select_only(selected: &mut Vec<usize>, idx: usize)
    ensures
        final(selected)@ == seq![idx],
        final(selected)@.no_duplicates(),
        final(selected)@.to_set() == set![idx],
{
    let mut v: Vec<usize> = Vec::new();
    v.push(idx);
    *selected = v;
    proof {
        assert(selected@ =~= seq![idx]);
        assert(seq![idx].to_set() =~= set![idx]) by {
            assert forall|j: usize| seq![idx].to_set().contains(j) <==> set![idx].contains(j) by {
                if j == idx {
                    assert(seq![idx][0] == idx);
                }
            }
        }
    }
}

/// Modifier keys held during a click.
#[derive(Clone, Copy, PartialEq, Eq, Debug, Structural)]
pub struct ClickModifiers {
    pub shift: bool,
    pub ctrl: bool,
}

/// A primary click on row `idx`: the row gets the focus; with shift the rows from the
/// anchor to it are selected (without an anchor, just the row, which becomes the
/// anchor); with ctrl or in multi-select mode the row is toggled and becomes the
/// anchor; otherwise the row alone is selected and becomes the anchor.
pub fn apply_selection_click(
    selected: &mut Vec<usize>,
    focus_index: &mut Option<usize>,
    anchor: &mut Option<usize>,
    select_mode: bool,
    idx: usize,
    mods: ClickModifiers,
)
    requires
        old(selected)@.no_duplicates(),
    ensures
        final(selected)@.no_duplicates(),
        *final(focus_index) == Some(idx),
        if mods.shift {
            match *old(anchor) {
                Some(a) => final(selected)@.to_set() == range_set(min_index(a, idx), max_index(a, idx))
                    && *final(anchor) == Some(a),
                None => final(selected)@.to_set() == set![idx] && *final(anchor) == Some(idx),
            }
        } else if mods.ctrl || select_mode {
            &&& final(selected)@.to_set() == if old(selected)@.contains(idx) {
                old(selected)@.to_set().remove(idx)
            } else {
                old(selected)@.to_set().insert(idx)
            }
            &&& *final(anchor) == Some(idx)
        } else {
            final(selected)@.to_set() == set![idx] && *final(anchor) == Some(idx)
        },
{
    *focus_index = Some(idx);
    if mods.shift {
        match *anchor {
            Some(a) => {
                let lo = if a < idx {
                    a
                } else {
                    idx
                };
                let hi = if a < idx {
                    idx
                } else {
                    a
                };
                select_range(selected, lo, hi);
            },
            None => {
                select_only(selected, idx);
                *anchor = Some(idx);
            },
        }
        return;
    }
    if mods.ctrl || select_mode {
        toggle_index(selected, idx);
        *anchor = Some(idx);
        return;
    }
    select_only(selected, idx);
    *anchor = Some(idx);
}

/// Keys pressed during one frame, and the modifiers held.
#[derive(Clone, Copy, PartialEq, Eq, Debug, Structural)]
pub struct ListKeys {
    pub a: bool,
    pub c: bool,
    pub x: bool,
    pub v: bool,
    pub delete: bool,
    pub backspace: bool,
    pub arrow_left: bool,
    pub arrow_right: bool,
    pub enter: bool,
    pub space: bool,
    pub arrow_up: bool,
    pub arrow_down: bool,
    pub ctrl: bool,
    pub shift: bool,
}

/// The row the arrow keys move to: one down or up from the focus, kept within the
/// list; without a focus, the first row going down and the last going up.
pub open spec fn next_row(focus: Option<usize>, down: bool, len: usize) -> usize {
    match focus {
        Some(i) => if down {
            if i + 1 <= len - 1 {
                (i + 1) as usize
            } else {
                (len - 1) as usize
            }
        } else {
            if i == 0 {
                0
            } else if i - 1 <= len - 1 {
                (i - 1) as usize
            } else {
                (len - 1) as usize
            }
        },
        None => if down {
            0
        } else {
            (len - 1) as usize
        },
    }
}

/// `ops` after a copy, cut or delete request (`kind` 0, 1 or 2) on the selection
/// `sel`: nothing when the selection is empty; otherwise the request holds the
/// selection, and multi-select mode is to be left when it is on.
pub open spec fn bulk_requested(
    before: PaneOpsView,
    sel: Seq<usize>,
    kind: int,
    select_mode: bool,
) -> PaneOpsView {
    if sel.len() == 0 {
        before
    } else {
        PaneOpsView {
            bulk_copy: if kind == 0 {
                Some(sel)
            } else {
                before.bulk_copy
            },
            bulk_cut: if kind == 1 {
                Some(sel)
            } else {
                before.bulk_cut
            },
            bulk_delete: if kind == 2 {
                Some(sel)
            } else {
                before.bulk_delete
            },
            dismiss_multiselect: before.dismiss_multiselect || select_mode,
            ..before
        }
    }
}

/// Keyboard handling of a focused file list, one frame. In order of precedence:
/// ctrl+A selects every row (focus and anchor on the first); ctrl+C and ctrl+X ask
/// to copy or cut the selection; ctrl+V asks to paste; Delete asks to delete the
/// selection (a copy, cut or delete request on a non-empty selection also leaves
/// multi-select mode); Backspace or Left asks for the parent directory; Space in
/// multi-select mode toggles the focused row and anchors it; Right or Enter asks to
/// open the focused row when it is a directory; Down and Up move the focus (with
/// shift selecting the rows from the anchor, or the new row, to it; outside
/// multi-select mode selecting just the new row and anchoring it; in multi-select
/// mode only anchoring it). An empty list ignores the keyboard.
pub fn handle_list_keyboard(
    entries: &[FileEntry],
    selected: &mut Vec<usize>,
    focus_index: &mut Option<usize>,
    select_mode: bool,
    anchor: &mut Option<usize>,
    ops: &mut PaneOps,
    keys: ListKeys,
)
    requires
        old(selected)@.no_duplicates(),
    ensures
        final(selected)@.no_duplicates(),
        ({
            let len = entries@.len();
            let sel = old(selected)@;
            let before = old(ops)@;
            let unchanged_rows = final(selected)@ == sel && *final(focus_index) == *old(
                focus_index,
            ) && *final(anchor) == *old(anchor);
            if len == 0 {
                unchanged_rows && final(ops)@ == before
            } else if keys.a && keys.ctrl {
                &&& final(selected)@.to_set() == range_set(0, (len - 1) as usize)
                &&& *final(focus_index) == Some(0usize)
                &&& *final(anchor) == Some(0usize)
                &&& final(ops)@ == before
            } else if keys.c && keys.ctrl {
                unchanged_rows && final(ops)@ == bulk_requested(before, sel, 0, select_mode)
            } else if keys.x && keys.ctrl {
                unchanged_rows && final(ops)@ == bulk_requested(before, sel, 1, select_mode)
            } else if keys.v && keys.ctrl {
                unchanged_rows && final(ops)@ == PaneOpsView { paste: true, ..before }
            } else if keys.delete {
                unchanged_rows && final(ops)@ == bulk_requested(before, sel, 2, select_mode)
            } else if keys.backspace || keys.arrow_left {
                unchanged_rows && final(ops)@ == PaneOpsView { go_up: true, ..before }
            } else if keys.space && select_mode {
                &&& *final(focus_index) == *old(focus_index)
                &&& final(ops)@ == before
                &&& match *old(focus_index) {
                    Some(i) => {
                        &&& final(selected)@.to_set() == if sel.contains(i) {
                            sel.to_set().remove(i)
                        } else {
                            sel.to_set().insert(i)
                        }
                        &&& *final(anchor) == Some(i)
                    },
                    None => final(selected)@ == sel && *final(anchor) == *old(anchor),
                }
            } else if keys.arrow_right || keys.enter {
                &&& unchanged_rows
                &&& final(ops)@ == match *old(focus_index) {
                    Some(i) => if i < len && entries@[i as int].is_dir {
                        PaneOpsView { open_index: Some(i), ..before }
                    } else {
                        before
                    },
                    None => before,
                }
            } else if keys.arrow_down || keys.arrow_up {
                let next = next_row(*old(focus_index), keys.arrow_down, len as usize);
                &&& *final(focus_index) == Some(next)
                &&& final(ops)@ == before
                &&& if keys.shift {
                    let a = match *old(anchor) {
                        Some(a) => a,
                        None => next,
                    };
                    &&& final(selected)@.to_set() == range_set(min_index(a, next), max_index(a, next))
                    &&& *final(anchor) == *old(anchor)
                } else if !select_mode {
                    &&& final(selected)@.to_set() == set![next]
                    &&& *final(anchor) == Some(next)
                } else {
                    &&& final(selected)@ == sel
                    &&& *final(anchor) == Some(next)
                }
            } else {
                unchanged_rows && final(ops)@ == before
            }
        }),
{
    let len = entries.len();
    if len == 0 {
        return;
    }
    if keys.a && keys.ctrl {
        select_range(selected, 0, len - 1);
        *focus_index = Some(0);
        *anchor = Some(0);
        return;
    }
    if keys.c && keys.ctrl {
        if selected.len() > 0 {
            ops.bulk_copy = Some(selected.clone());
            if select_mode {
                ops.dismiss_multiselect = true;
            }
        }
        return;
    }
    if keys.x && keys.ctrl {
        if selected.len() > 0 {
            ops.bulk_cut = Some(selected.clone());
            if select_mode {
                ops.dismiss_multiselect = true;
            }
        }
        return;
    }
    if keys.v && keys.ctrl {
        ops.paste = true;
        return;
    }
    if keys.delete {
        if selected.len() > 0 {
            ops.bulk_delete = Some(selected.clone());
            if select_mode {
                ops.dismiss_multiselect = true;
            }
        }
        return;
    }
    if keys.backspace || keys.arrow_left {
        ops.go_up = true;
        return;
    }
    if keys.space && select_mode {
        if let Some(idx) = *focus_index {
            toggle_index(selected, idx);
            *anchor = Some(idx);
        }
        return;
    }
    if keys.arrow_right || keys.enter {
        if let Some(idx) = *focus_index {
            if idx < entries.len() && entries[idx].is_dir {
                ops.open_index = Some(idx);
            }
        }
        return;
    }
    let down = if keys.arrow_down {
        true
    } else if keys.arrow_up {
        false
    } else {
        return;
    };
    let next: usize = match *focus_index {
        Some(i) => if down {
            if i < len - 1 {
                i + 1
            } else {
                len - 1
            }
        } else {
            if i == 0 {
                0
            } else if i - 1 <= len - 1 {
                i - 1
            } else {
                len - 1
            }
        },
        None => if down {
            0
        } else {
            len - 1
        },
    };
    if keys.shift {
        let a = match *anchor {
            Some(a) => a,
            None => next,
        };
        let lo = if a < next {
            a
        } else {
            next
        };
        let hi = if a < next {
            next
        } else {
            a
        };
        select_range(selected, lo, hi);
    } else if !select_mode {
        select_only(selected, next);
        *anchor = Some(next);
    } else {
        *anchor = Some(next);
    }
    *focus_index = Some(next);
}

/// A pane out of multi-select mode, with nothing selected.
pub open spec fn dismissed(v: FilePaneView) -> FilePaneView {
    FilePaneView { select_mode: false, selected: seq![], ..v }
}

/// Leaves multi-select mode and clears the selection.
pub fn dismiss_multiselect(pane: &mut FilePaneState)
    ensures
        final(pane)@ == dismissed(old(pane)@),
{
    pane.select_mode = false;
    pane.selected.clear();
    assert(pane.selected@ =~= Seq::<usize>::empty());
}

/// Leaves multi-select mode on a local pane.
pub fn dismiss_multiselect_local(pane: &mut FilePaneState)
    ensures
        final(pane)@ == dismissed(old(pane)@),
{
    dismiss_multiselect(pane);
}

/// Leaves multi-select mode on the remote pane.
pub fn dismiss_multiselect_remote(remote: &mut FilePaneState)
    ensures
        final(remote)@ == dismissed(old(remote)@),
{
    dismiss_multiselect(remote);
}

/// The text of a list row: a focus dot (or two spaces), a `▸` for a directory (or a
/// space), a space, and the name.
pub open spec fn entry_label_spec(name: Seq<char>, is_dir: bool, focused: bool) -> Seq<char> {
    let marker = if is_dir {
        "\u{25b8}"@
    } else {
        " "@
    };
    if focused {
        "\u{25cf} "@ + marker + " "@ + name
    } else {
        "  "@ + marker + " "@ + name
    }
}

pub fn entry_label(ent: &FileEntry, focused: bool) -> (s: String)
    ensures
        s@ == entry_label_spec(ent.name@, ent.is_dir, focused),
{
    let mut s = String::new();
    if focused {
        s.append("\u{25cf} ");
    } else {
        s.append("  ");
    }
    if ent.is_dir {
        s.append("\u{25b8}");
    } else {
        s.append(" ");
    }
    s.append(" ");
    s.append(ent.name.as_str());
    assert(s@ =~= entry_label_spec(ent.name@, ent.is_dir, focused));
    s
}

/// Toggling a row twice gives back the selection.
pub proof fn law_toggle_twice(s: Set<usize>, idx: usize)
    ensures
        (if (if s.contains(idx) {
            s.remove(idx)
        } else {
            s.insert(idx)
        }).contains(idx) {
            (if s.contains(idx) {
                s.remove(idx)
            } else {
                s.insert(idx)
            }).remove(idx)
        } else {
            (if s.contains(idx) {
                s.remove(idx)
            } else {
                s.insert(idx)
            }).insert(idx)
        }) == s,
{
    if s.contains(idx) {
        assert(s.remove(idx).insert(idx) =~= s);
    } else {
        assert(s.insert(idx).remove(idx) =~= s);
    }
}

/// The row the arrow keys move to lies within the list.
pub proof fn law_next_row_in_list(focus: Option<usize>, down: bool, len: usize)
    requires
        len > 0,
    ensures
        next_row(focus, down, len) < len,
{
}

} // verus!
