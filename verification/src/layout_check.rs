//! Checking that a workspace layout read from elsewhere is well formed.

use vstd::prelude::*;

use crate::layout_state::{
    distinct_ids, distinct_leaves, has_pane, layout_wf, leaf_set, LayoutView, PaneId, PaneState,
    PaneTable, SplitNode, WorkspaceLayout,
};

verus! {

/// The leaves of a split tree, left to right.
pub open spec fn leaves(node: SplitNode) -> Seq<PaneId>
    decreases node,
{
    match node {
        SplitNode::Leaf { pane_id } => seq![pane_id],
        SplitNode::Split { first, second, .. } => leaves(*first) + leaves(*second),
    }
}

proof fn lemma_concat_contains<A>(a: Seq<A>, b: Seq<A>, x: A)
    ensures
        (a + b).contains(x) <==> a.contains(x) || b.contains(x),
{
    if (a + b).contains(x) {
        let k = choose|k: int| 0 <= k < (a + b).len() && (a + b)[k] == x;
        if k < a.len() {
            assert(a[k] == x);
        } else {
            assert(b[k - a.len()] == x);
        }
    }
    if a.contains(x) {
        let k = choose|k: int| 0 <= k < a.len() && a[k] == x;
        assert((a + b)[k] == x);
    }
    if b.contains(x) {
        let k = choose|k: int| 0 <= k < b.len() && b[k] == x;
        assert((a + b)[k + a.len()] == x);
    }
}

proof fn lemma_concat_no_duplicates<A>(a: Seq<A>, b: Seq<A>)
    ensures
        (a + b).no_duplicates() <==> a.no_duplicates() && b.no_duplicates() && forall|x: A|
            !(a.contains(x) && b.contains(x)),
{
    let c = a + b;
    if c.no_duplicates() {
        assert forall|i: int, j: int| 0 <= i < j < a.len() implies a[i] != a[j] by {
            assert(c[i] == a[i] && c[j] == a[j]);
        }
        assert forall|i: int, j: int| 0 <= i < j < b.len() implies b[i] != b[j] by {
            assert(c[i + a.len()] == b[i] && c[j + a.len()] == b[j]);
        }
        assert forall|x: A| !(a.contains(x) && b.contains(x)) by {
            if a.contains(x) && b.contains(x) {
                let i = choose|i: int| 0 <= i < a.len() && a[i] == x;
                let j = choose|j: int| 0 <= j < b.len() && b[j] == x;
                assert(c[i] == c[j + a.len()]);
            }
        }
    }
    if a.no_duplicates() && b.no_duplicates() && forall|x: A| !(a.contains(x) && b.contains(x)) {
        assert forall|i: int, j: int| 0 <= i < j < c.len() implies c[i] != c[j] by {
            if j < a.len() {
                assert(c[i] == a[i] && c[j] == a[j]);
            } else if i >= a.len() {
                assert(c[i] == b[i - a.len()] && c[j] == b[j - a.len()]);
            } else {
                assert(a.contains(c[i]));
                assert(c[j] == b[j - a.len()]);
                assert(b.contains(c[j]));
            }
        }
    }
}

/// The leaves hold the leaf set, and no pane twice exactly when the tree has distinct
/// leaves.
pub proof fn lemma_leaves(node: SplitNode)
    ensures
        forall|id: PaneId| #[trigger] leaves(node).contains(id) <==> leaf_set(node).contains(id),
        leaves(node).no_duplicates() <==> distinct_leaves(node),
    decreases node,
{
    match node {
        SplitNode::Leaf { pane_id } => {
            assert forall|id: PaneId| #[trigger] leaves(node).contains(id) <==> leaf_set(node).contains(id) by {
                if leaves(node).contains(id) {
                    assert(leaves(node)[0] == pane_id);
                }
                if id == pane_id {
                    assert(leaves(node)[0] == id);
                }
            }
        },
        SplitNode::Split { first, second, .. } => {
            lemma_leaves(*first);
            lemma_leaves(*second);
            let (a, b) = (leaves(*first), leaves(*second));
            assert forall|id: PaneId| #[trigger] leaves(node).contains(id) <==> leaf_set(node).contains(id) by {
                lemma_concat_contains(a, b, id);
            }
            lemma_concat_no_duplicates(a, b);
            if leaf_set(*first).disjoint(leaf_set(*second)) {
                assert forall|x: PaneId| !(a.contains(x) && b.contains(x)) by {
                    if a.contains(x) && b.contains(x) {
                        assert(leaf_set(*first).contains(x) && leaf_set(*second).contains(x));
                    }
                }
            }
            if forall|x: PaneId| !(a.contains(x) && b.contains(x)) {
                assert forall|x: PaneId| !(leaf_set(*first).contains(x) && leaf_set(*second).contains(x)) by {
                    assert(!(a.contains(x) && b.contains(x)));
                }
            }
        },
    }
}

/// Appends the leaves of `node` to `out`.
fn collect_leaves(node: &SplitNode, out: &mut Vec<PaneId>)
    ensures
        final(out)@ == old(out)@ + leaves(*node),
    decreases node,
{
    match node {
        SplitNode::Leaf { pane_id } => {
            out.push(*pane_id);
            assert(out@ =~= old(out)@ + leaves(*node));
        },
        SplitNode::Split { first, second, .. } => {
            collect_leaves(first, out);
            collect_leaves(second, out);
            assert(out@ =~= old(out)@ + leaves(*node));
        },
    }
}

/// Whether `ids` holds no id twice.
fn no_repeats(ids: &Vec<PaneId>) -> (b: bool)
    ensures
        b == ids@.no_duplicates(),
{
    let mut i: usize = 0;
    while i < ids.len()
        invariant
            i <= ids@.len(),
            forall|a: int, c: int| 0 <= a < c < ids@.len() && a < i ==> ids@[a] != ids@[c],
        decreases ids@.len() - i,
    {
        let mut j: usize = i + 1;
        while j < ids.len()
            invariant
                i < ids@.len(),
                i + 1 <= j <= ids@.len(),
                forall|a: int, c: int| 0 <= a < c < ids@.len() && a < i ==> ids@[a] != ids@[c],
                forall|c: int| i < c < j ==> ids@[i as int] != ids@[c],
            decreases ids@.len() - j,
        {
            if ids[i].0 == ids[j].0 {
                return false;
            }
            j = j + 1;
        }
        i = i + 1;
    }
    true
}

/// Whether `ids` holds `id`.
fn holds(ids: &Vec<PaneId>, id: PaneId) -> (b: bool)
    ensures
        b == ids@.contains(id),
{
    let mut i: usize = 0;
    while i < ids.len()
        invariant
            i <= ids@.len(),
            forall|k: int| 0 <= k < i ==> ids@[k] != id,
        decreases ids@.len() - i,
    {
        if ids[i].0 == id.0 {
            assert(ids@[i as int] == id);
            return true;
        }
        i = i + 1;
    }
    false
}

/// The view of a table given as entries.
pub open spec fn entries_view(entries: Seq<(PaneId, PaneState)>) -> Seq<(PaneId, crate::layout_state::PaneView)> {
    entries.map_values(|e: (PaneId, PaneState)| (e.0, crate::layout_state::pane_view(e.1)))
}

/// Whether every id of `a` is in `b`.
fn all_held(a: &Vec<PaneId>, b: &Vec<PaneId>) -> (r: bool)
    ensures
        r == forall|x: PaneId| a@.contains(x) ==> b@.contains(x),
{
    let mut i: usize = 0;
    while i < a.len()
        invariant
            i <= a@.len(),
            forall|k: int| 0 <= k < i ==> b@.contains(#[trigger] a@[k]),
        decreases a@.len() - i,
    {
        if !holds(b, a[i]) {
            assert(a@.contains(a@[i as int]));
            return false;
        }
        i = i + 1;
    }
    assert forall|x: PaneId| a@.contains(x) implies b@.contains(x) by {
        let k = choose|k: int| 0 <= k < a@.len() && a@[k] == x;
        assert(b@.contains(a@[k]));
    }
    true
}

impl WorkspaceLayout {
    /// A layout from its parts when they are well formed (see `layout_wf`): the pane
    /// ids distinct, at least one pane, and the leaves of the tree exactly the panes,
    /// each once. Otherwise nothing. Its counter starts at zero, so the first new pane
    /// is numbered one above the largest id in use.
    pub fn checked(root: SplitNode, entries: Vec<(PaneId, PaneState)>, focused: PaneId) -> (r: Option<
        WorkspaceLayout,
    >)
        ensures
            ({
                let v = LayoutView { root, panes: entries_view(entries@), focused, next_id: 0 };
                match r {
                    Some(l) => layout_wf(v) && l@ == v,
                    None => !layout_wf(v),
                }
            }),
    {
        let ghost v = LayoutView { root, panes: entries_view(entries@), focused, next_id: 0 };
        let mut ids: Vec<PaneId> = Vec::new();
        let mut k: usize = 0;
        while k < entries.len()
            invariant
                k <= entries@.len(),
                ids@.len() == k,
                forall|j: int| 0 <= j < k ==> ids@[j] == (#[trigger] entries@[j]).0,
            decreases entries@.len() - k,
        {
            ids.push(entries[k].0);
            k = k + 1;
        }
        let mut leaf_ids: Vec<PaneId> = Vec::new();
        collect_leaves(&root, &mut leaf_ids);
        proof {
            assert(leaf_ids@ =~= leaves(root));
            lemma_leaves(root);
            assert(v.panes.len() == ids@.len());
            assert forall|j: int| 0 <= j < ids@.len() implies v.panes[j].0 == ids@[j] by {}
            assert(distinct_ids(v.panes) == ids@.no_duplicates());
            assert forall|id: PaneId| has_pane(v.panes, id) <==> ids@.contains(id) by {
                if has_pane(v.panes, id) {
                    let j = choose|j: int| 0 <= j < v.panes.len() && v.panes[j].0 == id;
                    assert(ids@[j] == id);
                }
                if ids@.contains(id) {
                    let j = choose|j: int| 0 <= j < ids@.len() && ids@[j] == id;
                    assert(v.panes[j].0 == id);
                }
            }
        }
        let ok = entries.len() >= 1 && no_repeats(&ids) && no_repeats(&leaf_ids) && all_held(&leaf_ids, &ids)
            && all_held(&ids, &leaf_ids);
        proof {
            if layout_wf(v) {
                assert forall|x: PaneId| leaf_ids@.contains(x) implies ids@.contains(x) by {
                    assert(leaf_set(root).contains(x));
                }
                assert forall|x: PaneId| ids@.contains(x) implies leaf_ids@.contains(x) by {
                    assert(has_pane(v.panes, x));
                }
            }
            if ok {
                assert forall|id: PaneId| #[trigger] leaf_set(v.root).contains(id) <==> has_pane(v.panes, id) by {
                    assert(leaf_ids@.contains(id) <==> leaf_set(root).contains(id));
                }
            }
        }
        if ok {
            Some(
                WorkspaceLayout {
                    root,
                    panes: PaneTable::from_entries(entries),
                    focused_pane: focused,
                    next_pane_id: 0,
                },
            )
        } else {
            None
        }
    }
}

} // verus!
