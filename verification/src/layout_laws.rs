//! Properties of the workspace layout operations that span several calls or hold
//! of every state.

use vstd::prelude::*;

use crate::layout_check::leaves;
use crate::layout_state::{
    can_draw_id, clear_spec, cleared, cleared_entry, close_spec, collapse_spec, distinct_ids, drop_spec, edge_axis,
    edge_new_first, first_empty_index, fresh_pane_id, next_after_draw, has_pane, insert_spec, layout_wf,
    lemma_close_wf, lemma_first_empty_index, lemma_fresh_pane_id, lemma_insert_wf, lemma_pane_index,
    lemma_prune_wf, lemma_root_not_leaf, lemma_same_ids, lemma_sessions_only, lemma_split_leaf,
    lemma_split_wf, lemma_without_undoes_split, leaf_set, SplitNode, max_panes_spec, pane_index, prune_spec,
    push_fresh_wf, session_of, split_leaf, split_spec, swap_spec, with_session, DropEdge, DropZone,
    LayoutView, PaneId, PaneSeq, PaneView, SplitAxis, DEFAULT_SPLIT_RATIO,
};

verus! {

/// Setting the session of one pane of a table with distinct ids: the ids stay, the
/// pane shows the new session and every other pane keeps its own.
pub proof fn lemma_with_session(t: PaneSeq, id: PaneId, x: Option<Seq<char>>)
    requires
        distinct_ids(t),
    ensures
        with_session(t, id, x).len() == t.len(),
        forall|k: int| 0 <= k < t.len() ==> (#[trigger] with_session(t, id, x)[k]).0 == t[k].0,
        forall|k: int|
            0 <= k < t.len() ==> (#[trigger] with_session(t, id, x)[k]).1.color_index == t[k].1.color_index,
        distinct_ids(with_session(t, id, x)),
        forall|q: PaneId| has_pane(with_session(t, id, x), q) <==> has_pane(t, q),
        forall|q: PaneId|
            #[trigger] session_of(with_session(t, id, x), q) == if q == id && has_pane(t, id) {
                x
            } else {
                session_of(t, q)
            },
{
    let r = with_session(t, id, x);
    lemma_same_ids(t, r);
    assert forall|q: PaneId| #[trigger] session_of(r, q) == if q == id && has_pane(t, id) {
        x
    } else {
        session_of(t, q)
    } by {
        if has_pane(t, q) {
            let i = choose|i: int| 0 <= i < t.len() && t[i].0 == q;
            lemma_pane_index(t, q, i);
            lemma_pane_index(r, q, i);
        }
    }
}

/// A table entry that is present in `t`.
pub open spec fn has_entry(t: PaneSeq, e: (PaneId, PaneView)) -> bool {
    exists|j: int| 0 <= j < t.len() && t[j] == e
}

/// Closing a pane keeps every other entry as it was.
proof fn lemma_close_entries(v: LayoutView, id: PaneId)
    requires
        layout_wf(v),
        v.panes.len() > 1,
    ensures
        forall|e: (PaneId, PaneView)|
            #[trigger] has_entry(close_spec(v, id).0.panes, e) <==> (has_entry(v.panes, e) && e.0 != id),
{
    lemma_close_wf(v, id);
    let c = close_spec(v, id).0;
    assert forall|e: (PaneId, PaneView)| #[trigger] has_entry(c.panes, e) <==> (has_entry(v.panes, e) && e.0 != id) by {
        if has_pane(v.panes, id) {
            let j = pane_index(v.panes, id);
            if has_entry(c.panes, e) {
                let k = choose|k: int| 0 <= k < c.panes.len() && c.panes[k] == e;
                if k < j {
                    assert(v.panes[k] == e);
                } else {
                    assert(v.panes[k + 1] == e);
                    assert(v.panes[k + 1].0 != v.panes[j].0);
                }
            }
            if has_entry(v.panes, e) && e.0 != id {
                let k = choose|k: int| 0 <= k < v.panes.len() && v.panes[k] == e;
                if k < j {
                    assert(c.panes[k] == e);
                } else {
                    assert(k != j);
                    assert(c.panes[k - 1] == e);
                }
            }
        } else {
            if has_entry(v.panes, e) {
                let k = choose|k: int| 0 <= k < v.panes.len() && v.panes[k] == e;
                assert(has_pane(v.panes, e.0));
            }
        }
    }
}

/// Pruning removes only panes without a session and keeps the other entries as they were.
pub proof fn lemma_prune_entries(v: LayoutView)
    requires
        layout_wf(v),
    ensures
        forall|e: (PaneId, PaneView)| #[trigger] has_entry(prune_spec(v).panes, e) ==> has_entry(v.panes, e),
        forall|e: (PaneId, PaneView)|
            #[trigger] has_entry(v.panes, e) && e.1.session is Some ==> has_entry(prune_spec(v).panes, e),
    decreases v.panes.len(),
{
    let i = first_empty_index(v.panes);
    lemma_first_empty_index(v.panes);
    if v.panes.len() > 1 && i >= 0 {
        let id = v.panes[i].0;
        lemma_close_wf(v, id);
        lemma_close_entries(v, id);
        assert(has_pane(v.panes, id));
        let c = close_spec(v, id).0;
        lemma_prune_entries(c);
        assert forall|e: (PaneId, PaneView)| #[trigger] has_entry(v.panes, e) && e.1.session is Some implies has_entry(
            prune_spec(v).panes,
            e,
        ) by {
            if e.0 == id {
                let k = choose|k: int| 0 <= k < v.panes.len() && v.panes[k] == e;
                assert(v.panes[k].0 == v.panes[i].0);
                if k != i {
                    if k < i {
                        assert(v.panes[k].0 != v.panes[i].0);
                    } else {
                        assert(v.panes[i].0 != v.panes[k].0);
                    }
                }
            }
            assert(has_entry(c.panes, e));
        }
    }
}

/// Pruning never adds panes.
pub proof fn lemma_prune_len(v: LayoutView)
    requires
        layout_wf(v),
    ensures
        prune_spec(v).panes.len() <= v.panes.len(),
    decreases v.panes.len(),
{
    let i = first_empty_index(v.panes);
    lemma_first_empty_index(v.panes);
    if v.panes.len() > 1 && i >= 0 {
        let id = v.panes[i].0;
        lemma_close_wf(v, id);
        assert(has_pane(v.panes, id));
        lemma_prune_len(close_spec(v, id).0);
    }
}

/// In a table with distinct ids, an entry present with id `q` is the entry `session_of`
/// reads.
proof fn lemma_entry_session(t: PaneSeq, e: (PaneId, PaneView))
    requires
        distinct_ids(t),
        has_entry(t, e),
    ensures
        has_pane(t, e.0),
        session_of(t, e.0) == e.1.session,
{
    let k = choose|k: int| 0 <= k < t.len() && t[k] == e;
    lemma_pane_index(t, e.0, k);
}

/// Closing the pane that `split_pane` just created gives back the layout from before
/// the split, with the id counter left past the new pane (unless the focus named a
/// pane that is gone and whose id the new pane took).
pub proof fn law_close_undoes_split(
    v: LayoutView,
    pane_id: PaneId,
    axis: SplitAxis,
    s: Option<Seq<char>>,
    color_index: usize,
)
    requires
        layout_wf(v),
        can_draw_id(v),
        split_spec(v, pane_id, axis, s, color_index).1 is Some,
        v.focused != fresh_pane_id(v),
    ensures
        close_spec(
            split_spec(v, pane_id, axis, s, color_index).0,
            split_spec(v, pane_id, axis, s, color_index).1->0,
        ) == (LayoutView { next_id: next_after_draw(v), ..v }, true),
{
    let new_pane = fresh_pane_id(v);
    let v1 = split_spec(v, pane_id, axis, s, color_index).0;
    lemma_fresh_pane_id(v);
    lemma_split_wf(v, pane_id, axis, s, color_index);
    lemma_without_undoes_split(v.root, pane_id, axis, DEFAULT_SPLIT_RATIO, new_pane, false);
    lemma_split_leaf(v.root, pane_id, axis, DEFAULT_SPLIT_RATIO, new_pane, false);
    lemma_root_not_leaf(v1, new_pane);
    lemma_pane_index(v1.panes, new_pane, v.panes.len() as int);
    assert(v1.panes.remove(v.panes.len() as int) =~= v.panes);
}
/// The leaves after `target`'s leaf is split with `new_pane` second: `new_pane`
/// comes in directly after `target` (at position `k + 1`, `target` being at `k`).
proof fn lemma_split_second_leaves(node: SplitNode, target: PaneId, axis: SplitAxis, ratio: u16, new_pane: PaneId) -> (k: int)
    requires
        leaf_set(node).contains(target),
    ensures
        0 <= k < leaves(node).len(),
        leaves(node)[k] == target,
        leaves(split_leaf(node, target, axis, ratio, new_pane, false)) == leaves(node).insert(k + 1, new_pane),
    decreases node,
{
    match node {
        SplitNode::Leaf { pane_id } => {
            assert(set![pane_id].contains(target));
            assert(pane_id == target);
            let l1 = SplitNode::Leaf { pane_id: target };
            let l2 = SplitNode::Leaf { pane_id: new_pane };
            assert(leaves(l1) == seq![target]);
            assert(leaves(l2) == seq![new_pane]);
            assert(split_leaf(node, target, axis, ratio, new_pane, false) == SplitNode::Split {
                axis,
                ratio,
                first: Box::new(l1),
                second: Box::new(l2),
            });
            assert(leaves(split_leaf(node, target, axis, ratio, new_pane, false)) == leaves(l1) + leaves(l2));
            assert(leaves(l1) + leaves(l2) =~= leaves(node).insert(1, new_pane));
            0
        },
        SplitNode::Split { first, second, .. } => {
            let (a, b) = (leaves(*first), leaves(*second));
            if leaf_set(*first).contains(target) {
                let k = lemma_split_second_leaves(*first, target, axis, ratio, new_pane);
                assert(leaves(node)[k] == a[k]);
                assert(a.insert(k + 1, new_pane) + b =~= (a + b).insert(k + 1, new_pane));
                k
            } else {
                let k = lemma_split_second_leaves(*second, target, axis, ratio, new_pane);
                assert(leaves(node)[a.len() + k] == b[k]);
                assert(a + b.insert(k + 1, new_pane) =~= (a + b).insert(a.len() + k + 1, new_pane));
                a.len() + k
            }
        },
    }
}

/// Splitting a pane puts the new pane directly after it: in the left-to-right (top to
/// bottom) order of the leaves, the new pane comes in right after the pane that was
/// split and every other leaf keeps its place; a workspace of one pane becomes a split
/// along `axis` with the old pane first and the new pane second.
pub proof fn law_split_puts_new_pane_after(
    v: LayoutView,
    pane_id: PaneId,
    axis: SplitAxis,
    s: Option<Seq<char>>,
    color_index: usize,
)
    requires
        split_spec(v, pane_id, axis, s, color_index).1 is Some,
    ensures
        ({
            let (w, r) = split_spec(v, pane_id, axis, s, color_index);
            let n = r->0;
            &&& exists|k: int|
                0 <= k < leaves(v.root).len() && leaves(v.root)[k] == pane_id && #[trigger] leaves(w.root)
                    == leaves(v.root).insert(k + 1, n)
            &&& v.root == (SplitNode::Leaf { pane_id }) ==> w.root == (SplitNode::Split {
                axis,
                ratio: DEFAULT_SPLIT_RATIO,
                first: Box::new(SplitNode::Leaf { pane_id }),
                second: Box::new(SplitNode::Leaf { pane_id: n }),
            })
        }),
{
    let (w, r) = split_spec(v, pane_id, axis, s, color_index);
    let k = lemma_split_second_leaves(v.root, pane_id, axis, DEFAULT_SPLIT_RATIO, r->0);
    assert(leaves(w.root) == leaves(v.root).insert(k + 1, r->0));
}


/// Pane ids are not reused: a pane drawn after another pane was drawn and closed has a
/// larger id, since the counter ends past every id drawn and closing leaves it alone.
pub proof fn law_closed_pane_id_not_reused(
    v: LayoutView,
    pane_id: PaneId,
    axis: SplitAxis,
    s: Option<Seq<char>>,
    color_index: usize,
    pane_id2: PaneId,
    s2: Option<Seq<char>>,
)
    requires
        split_spec(v, pane_id, axis, s, color_index).1 is Some,
        can_draw_id(v),
        can_draw_id(
            close_spec(
                split_spec(v, pane_id, axis, s, color_index).0,
                split_spec(v, pane_id, axis, s, color_index).1->0,
            ).0,
        ),
    ensures
        ({
            let (v1, first) = split_spec(v, pane_id, axis, s, color_index);
            let drawn = first->0;
            let v2 = close_spec(v1, drawn).0;
            &&& v2.next_id == v1.next_id
            &&& drawn.0 < v1.next_id
            &&& split_spec(v2, pane_id2, axis, s2, color_index).1 matches Some(second) ==> drawn.0 < second.0
        }),
{
}

/// Exchanging the sessions of two panes twice gives back the layout.
pub proof fn law_swap_twice_is_identity(v: LayoutView, a: PaneId, b: PaneId)
    requires
        layout_wf(v),
        has_pane(v.panes, a),
        has_pane(v.panes, b),
    ensures
        swap_spec(swap_spec(v, a, b), a, b) == v,
{
    if a != b {
        let t = v.panes;
        let sa = session_of(t, a);
        let sb = session_of(t, b);
        let t1 = with_session(t, a, sb);
        lemma_with_session(t, a, sb);
        let t2 = with_session(t1, b, sa);
        lemma_with_session(t1, b, sa);
        let t3 = with_session(t2, a, sa);
        lemma_with_session(t2, a, sa);
        let t4 = with_session(t3, b, sb);
        lemma_with_session(t3, b, sb);
        assert(swap_spec(v, a, b).panes == t2);
        assert(session_of(t2, a) == sb);
        assert(session_of(t2, b) == sa);
        assert forall|k: int| 0 <= k < t.len() implies #[trigger] t4[k] == t[k] by {
            let q = t[k].0;
            lemma_pane_index(t, q, k);
            lemma_pane_index(t4, q, k);
            assert(t4[k].1.session == t[k].1.session);
        }
        assert(t4 =~= t);
    }
}

/// After an exchange each of the two panes shows what the other showed.
pub proof fn law_swap_exchanges_sessions(v: LayoutView, a: PaneId, b: PaneId)
    requires
        layout_wf(v),
        has_pane(v.panes, a),
        has_pane(v.panes, b),
    ensures
        session_of(swap_spec(v, a, b).panes, a) == session_of(v.panes, b),
        session_of(swap_spec(v, a, b).panes, b) == session_of(v.panes, a),
{
    if a != b {
        let t = v.panes;
        let sa = session_of(t, a);
        let sb = session_of(t, b);
        lemma_with_session(t, a, sb);
        lemma_with_session(with_session(t, a, sb), b, sa);
    }
}

/// Putting a session at the edge of a pane that does not show it, in a workspace with
/// room: a new pane shows the session, and no other pane does.
pub proof fn law_insert_shows_session_once(
    v: LayoutView,
    target: PaneId,
    edge: DropEdge,
    s: Seq<char>,
    color_index: usize,
)
    requires
        layout_wf(v),
        can_draw_id(v),
        has_pane(v.panes, target),
        v.panes.len() < max_panes_spec(),
        session_of(v.panes, target) != Some(s),
    ensures
        insert_spec(v, target, edge, s, color_index).1 == Some(fresh_pane_id(v)),
        session_of(insert_spec(v, target, edge, s, color_index).0.panes, fresh_pane_id(v)) == Some(s),
        forall|i: int|
            0 <= i < insert_spec(v, target, edge, s, color_index).0.panes.len()
                && (#[trigger] insert_spec(v, target, edge, s, color_index).0.panes[i]).0 != fresh_pane_id(v)
                ==> insert_spec(v, target, edge, s, color_index).0.panes[i].1.session != Some(s),
{
    let new_pane = fresh_pane_id(v);
    let v1 = clear_spec(v, s, Some(target));
    lemma_sessions_only(v, v1.panes);
    lemma_fresh_pane_id(v);
    lemma_same_ids(v.panes, v1.panes);
    lemma_split_leaf(v1.root, target, edge_axis(edge), DEFAULT_SPLIT_RATIO, new_pane, edge_new_first(edge));
    let e = (new_pane, PaneView { session: Some(s), color_index });
    push_fresh_wf(v1.panes, new_pane, e.1);
    let v2 = LayoutView {
        root: split_leaf(v1.root, target, edge_axis(edge), DEFAULT_SPLIT_RATIO, new_pane, edge_new_first(edge)),
        panes: v1.panes.push(e),
        focused: v1.focused,
        next_id: next_after_draw(v),
    };
    assert(layout_wf(v2));
    let r = prune_spec(v2);
    lemma_prune_wf(v2);
    lemma_prune_entries(v2);
    assert(v2.panes[v1.panes.len() as int] == e);
    assert(has_entry(v2.panes, e));
    assert(has_entry(r.panes, e));
    lemma_entry_session(r.panes, e);
    assert forall|i: int| 0 <= i < r.panes.len() && (#[trigger] r.panes[i]).0 != new_pane implies r.panes[i].1.session
        != Some(s) by {
        assert(has_entry(r.panes, r.panes[i]));
        assert(has_entry(v2.panes, r.panes[i]));
        let k = choose|k: int| 0 <= k < v2.panes.len() && v2.panes[k] == r.panes[i];
        if k < v1.panes.len() {
            assert(v2.panes[k] == v1.panes[k]);
            // every pane but the target lost the session, and the target never had it
            if v1.panes[k].1.session == Some(s) {
                assert(v.panes[k].0 == target);
                lemma_pane_index(v.panes, target, k);
            }
        }
    }
}

/// Session `s` shows in at most one pane of the table.
pub open spec fn shown_at_most_once(t: PaneSeq, s: Seq<char>) -> bool {
    forall|i: int, j: int|
        0 <= i < t.len() && 0 <= j < t.len() && (#[trigger] t[i]).1.session == Some(s) && (#[trigger] t[j]).1.session
            == Some(s) ==> i == j
}

/// Pruning keeps the focus on a pane of the table.
proof fn lemma_prune_keeps_focus(v: LayoutView)
    requires
        layout_wf(v),
        has_pane(v.panes, v.focused),
    ensures
        has_pane(prune_spec(v).panes, prune_spec(v).focused),
    decreases v.panes.len(),
{
    let i = first_empty_index(v.panes);
    lemma_first_empty_index(v.panes);
    if v.panes.len() > 1 && i >= 0 {
        let id = v.panes[i].0;
        lemma_close_wf(v, id);
        let c = close_spec(v, id).0;
        assert(has_pane(v.panes, id));
        let k = pane_index(v.panes, id);
        lemma_pane_index(v.panes, id, i);
        if v.focused == id {
            assert(c.panes.len() >= 1);
            assert(c.focused == c.panes[0].0);
        } else {
            let j = choose|j: int| 0 <= j < v.panes.len() && v.panes[j].0 == v.focused;
            let t = v.panes.remove(i);
            assert(c.panes == t);
            if j < i {
                assert(t[j] == v.panes[j]);
            } else {
                assert(j != i);
                assert(t[j - 1] == v.panes[j]);
            }
        }
        lemma_prune_keeps_focus(c);
    }
}

/// Putting a session at the edge of a pane of a well-formed layout that shows it at
/// most once, with the focus on a pane: afterwards exactly one pane shows the
/// session (the pane returned), the layout is well formed, the focus is on a pane, and
/// the workspace grows past the pane limit only where it already was past it.
pub proof fn law_insert_keeps_session_once(
    v: LayoutView,
    target: PaneId,
    edge: DropEdge,
    s: Seq<char>,
    color_index: usize,
)
    requires
        layout_wf(v),
        can_draw_id(v),
        has_pane(v.panes, target),
        has_pane(v.panes, v.focused),
        shown_at_most_once(v.panes, s),
    ensures
        ({
            let (w, r) = insert_spec(v, target, edge, s, color_index);
            &&& r matches Some(p) && session_of(w.panes, p) == Some(s) && forall|i: int|
                0 <= i < w.panes.len() && (#[trigger] w.panes[i]).0 != p ==> w.panes[i].1.session != Some(s)
            &&& layout_wf(w)
            &&& has_pane(w.panes, w.focused)
            &&& w.panes.len() <= if v.panes.len() < max_panes_spec() {
                max_panes_spec()
            } else {
                v.panes.len()
            }
        }),
{
    let (w, r) = insert_spec(v, target, edge, s, color_index);
    lemma_insert_wf(v, target, edge, s, color_index);
    if v.panes.len() >= max_panes_spec() {
        let f = v.focused;
        let t1 = cleared(v.panes, s, Some(f));
        lemma_same_ids(v.panes, t1);
        lemma_with_session(t1, f, Some(s));
        let t2 = with_session(t1, f, Some(s));
        assert(w.panes == t2);
        assert forall|i: int| 0 <= i < t2.len() && (#[trigger] t2[i]).0 != f implies t2[i].1.session != Some(s) by {
            assert(t2[i] == t1[i]);
            assert(t1[i] == cleared_entry(v.panes[i], s, Some(f)));
        }
        let j = choose|j: int| 0 <= j < v.panes.len() && v.panes[j].0 == f;
        assert(t2[j].0 == f);
    } else if session_of(v.panes, target) == Some(s) {
        let k = pane_index(v.panes, target);
        assert forall|i: int| 0 <= i < w.panes.len() && (#[trigger] w.panes[i]).0 != target implies w.panes[i].1.session
            != Some(s) by {
            if w.panes[i].1.session == Some(s) {
                assert(v.panes[k].1.session == Some(s));
            }
        }
    } else {
        law_insert_shows_session_once(v, target, edge, s, color_index);
        law_insert_keeps_pane_limit(v, target, edge, s, color_index);
        let new_pane = fresh_pane_id(v);
        let v1 = clear_spec(v, s, Some(target));
        lemma_sessions_only(v, v1.panes);
        lemma_fresh_pane_id(v);
        lemma_same_ids(v.panes, v1.panes);
        lemma_split_leaf(v1.root, target, edge_axis(edge), DEFAULT_SPLIT_RATIO, new_pane, edge_new_first(edge));
        push_fresh_wf(v1.panes, new_pane, PaneView { session: Some(s), color_index });
        let v2 = LayoutView {
            root: split_leaf(v1.root, target, edge_axis(edge), DEFAULT_SPLIT_RATIO, new_pane, edge_new_first(edge)),
            panes: v1.panes.push((new_pane, PaneView { session: Some(s), color_index })),
            focused: v1.focused,
            next_id: next_after_draw(v),
        };
        let j = choose|j: int| 0 <= j < v.panes.len() && v.panes[j].0 == v.focused;
        assert(v2.panes[j].0 == v.focused);
        lemma_prune_keeps_focus(v2);
    }
}

/// A drop on an edge acts as putting the session at that edge: of the focused pane
/// for the workspace's own edges, of the pane under the pointer otherwise.
pub proof fn law_edge_drop_is_insert(v: LayoutView, s: Seq<char>, edge: DropEdge, pane_id: PaneId, color_index: usize)
    ensures
        drop_spec(v, s, DropZone::Root { edge }, color_index) == insert_spec(v, v.focused, edge, s, color_index),
        drop_spec(v, s, DropZone::Pane { pane_id, edge }, color_index) == insert_spec(v, pane_id, edge, s, color_index),
{
}

/// Dropping a session in the middle of an existing pane: that pane shows the session,
/// gets the focus, and no other pane shows it.
pub proof fn law_center_drop_shows_session_once(v: LayoutView, s: Seq<char>, pane_id: PaneId, color_index: usize)
    requires
        layout_wf(v),
        has_pane(v.panes, pane_id),
    ensures
        drop_spec(v, s, DropZone::PaneCenter { pane_id }, color_index).1 == Some(pane_id),
        drop_spec(v, s, DropZone::PaneCenter { pane_id }, color_index).0.focused == pane_id,
        session_of(drop_spec(v, s, DropZone::PaneCenter { pane_id }, color_index).0.panes, pane_id) == Some(s),
        forall|i: int|
            0 <= i < drop_spec(v, s, DropZone::PaneCenter { pane_id }, color_index).0.panes.len()
                && (#[trigger] drop_spec(v, s, DropZone::PaneCenter { pane_id }, color_index).0.panes[i]).0 != pane_id
                ==> drop_spec(v, s, DropZone::PaneCenter { pane_id }, color_index).0.panes[i].1.session != Some(s),
{
    let t1 = cleared(v.panes, s, Some(pane_id));
    lemma_same_ids(v.panes, t1);
    lemma_with_session(t1, pane_id, Some(s));
}

/// Taking a session off every pane leaves it shown nowhere.
pub proof fn law_cleared_session_not_visible(v: LayoutView, s: Seq<char>)
    ensures
        forall|i: int|
            0 <= i < clear_spec(v, s, None).panes.len() ==> (#[trigger] clear_spec(v, s, None).panes[i]).1.session
                != Some(s),
{
}

/// Splitting never takes a workspace past the pane limit.
pub proof fn law_split_keeps_pane_limit(
    v: LayoutView,
    pane_id: PaneId,
    axis: SplitAxis,
    s: Option<Seq<char>>,
    color_index: usize,
)
    requires
        v.panes.len() <= max_panes_spec(),
    ensures
        split_spec(v, pane_id, axis, s, color_index).0.panes.len() <= max_panes_spec(),
{
}

/// Putting a session at an edge never takes a workspace past the pane limit.
pub proof fn law_insert_keeps_pane_limit(
    v: LayoutView,
    target: PaneId,
    edge: DropEdge,
    s: Seq<char>,
    color_index: usize,
)
    requires
        layout_wf(v),
        can_draw_id(v),
        v.panes.len() <= max_panes_spec(),
    ensures
        insert_spec(v, target, edge, s, color_index).0.panes.len() <= max_panes_spec(),
{
    if has_pane(v.panes, target) && v.panes.len() < max_panes_spec() && session_of(v.panes, target) != Some(s) {
        let new_pane = fresh_pane_id(v);
        let v1 = clear_spec(v, s, Some(target));
        lemma_sessions_only(v, v1.panes);
        lemma_fresh_pane_id(v);
        lemma_same_ids(v.panes, v1.panes);
        lemma_split_leaf(v1.root, target, edge_axis(edge), DEFAULT_SPLIT_RATIO, new_pane, edge_new_first(edge));
        push_fresh_wf(v1.panes, new_pane, PaneView { session: Some(s), color_index });
        let v2 = LayoutView {
            root: split_leaf(v1.root, target, edge_axis(edge), DEFAULT_SPLIT_RATIO, new_pane, edge_new_first(edge)),
            panes: v1.panes.push((new_pane, PaneView { session: Some(s), color_index })),
            focused: v1.focused,
            next_id: next_after_draw(v),
        };
        lemma_prune_len(v2);
    } else if has_pane(v.panes, target) && v.panes.len() >= max_panes_spec() {
        let v1 = clear_spec(v, s, Some(v.focused));
        let t2 = with_session(v1.panes, v.focused, Some(s));
    }
}

/// Collapsing keeps the session and color that the focused pane showed, in a single
/// pane that has the focus.
pub proof fn law_collapse_keeps_focused_session(v: LayoutView)
    ensures
        collapse_spec(v).panes.len() == 1,
        session_of(collapse_spec(v).panes, collapse_spec(v).focused) == session_of(v.panes, v.focused),
{
    let c = collapse_spec(v);
    assert(c.panes[0].0 == c.focused);
    assert(has_pane(c.panes, c.focused));
    let j = pane_index(c.panes, c.focused);
}

} // verus!
