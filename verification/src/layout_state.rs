//! Workspace layout state: a binary split tree of panes, the table of pane
//! states (which session each pane shows) and the focused pane.

use vstd::prelude::*;

use crate::function_pane::pages::FunctionPage;
use crate::text::{str_eq, to_owned};

verus! {

/// Unique pane identifier.
#[derive(Clone, Copy, PartialEq, Eq, Hash, Debug, Structural)]
pub struct PaneId(pub u64);

impl PaneId {
    /// The pane identifier with the given number.
    pub fn new(raw: u64) -> (id: PaneId)
        ensures
            id.0 == raw,
    {
        PaneId(raw)
    }
}

/// Split direction: horizontal = side-by-side, vertical = stacked.
#[derive(Clone, Copy, PartialEq, Eq, Debug, Structural)]
pub enum SplitAxis {
    Horizontal,
    Vertical,
}

/// Edge of a pane or workspace used for drop targeting.
#[derive(Clone, Copy, PartialEq, Eq, Debug, Structural)]
pub enum DropEdge {
    Left,
    Right,
    Top,
    Bottom,
}

/// The axis along which a drop on `edge` splits the target.
pub open spec fn edge_axis(edge: DropEdge) -> SplitAxis {
    match edge {
        DropEdge::Left | DropEdge::Right => SplitAxis::Horizontal,
        DropEdge::Top | DropEdge::Bottom => SplitAxis::Vertical,
    }
}

/// Whether a drop on `edge` puts the new pane before the target.
pub open spec fn edge_new_first(edge: DropEdge) -> bool {
    edge == DropEdge::Left || edge == DropEdge::Top
}

impl DropEdge {
    pub fn split_axis(self) -> (axis: SplitAxis)
        ensures
            axis == edge_axis(self),
    {
        match self {
            DropEdge::Left | DropEdge::Right => SplitAxis::Horizontal,
            DropEdge::Top | DropEdge::Bottom => SplitAxis::Vertical,
        }
    }

    pub fn new_pane_first(self) -> (first: bool)
        ensures
            first == edge_new_first(self),
    {
        match self {
            DropEdge::Left | DropEdge::Top => true,
            _ => false,
        }
    }
}

/// Drop target during drag-and-drop.
#[derive(Clone, Copy, PartialEq, Eq, Debug, Structural)]
pub enum DropZone {
    Root { edge: DropEdge },
    Pane { pane_id: PaneId, edge: DropEdge },
    PaneCenter { pane_id: PaneId },
}

/// Ratio of a fresh split, in thousandths of the parent's extent.
pub const DEFAULT_SPLIT_RATIO: u16 = 500;

/// Smallest ratio a resize may set, in thousandths.
pub const MIN_SPLIT_RATIO: u16 = 150;

/// Largest ratio a resize may set, in thousandths.
pub const MAX_SPLIT_RATIO: u16 = 850;

/// `ratio` clamped to `MIN_SPLIT_RATIO..=MAX_SPLIT_RATIO`.
pub open spec fn clamped_ratio(ratio: u16) -> u16 {
    if ratio < MIN_SPLIT_RATIO {
        MIN_SPLIT_RATIO
    } else if ratio > MAX_SPLIT_RATIO {
        MAX_SPLIT_RATIO
    } else {
        ratio
    }
}

/// Binary split tree node. `ratio` is the share of the first child, in thousandths.
#[derive(Debug)]
pub enum SplitNode {
    Leaf { pane_id: PaneId },
    Split { axis: SplitAxis, ratio: u16, first: Box<SplitNode>, second: Box<SplitNode> },
}

impl Clone for SplitNode {
    fn clone(&self) -> (res: Self)
        ensures
            res == *self,
        decreases self,
    {
        match self {
            SplitNode::Leaf { pane_id } => SplitNode::Leaf { pane_id: *pane_id },
            SplitNode::Split { axis, ratio, first, second } => {
                let f: SplitNode = (**first).clone();
                let s: SplitNode = (**second).clone();
                SplitNode::Split { axis: *axis, ratio: *ratio, first: Box::new(f), second: Box::new(s) }
            },
        }
    }
}

/// The panes that the leaves of a tree show.
pub open spec fn leaf_set(node: SplitNode) -> Set<PaneId>
    decreases node,
{
    match node {
        SplitNode::Leaf { pane_id } => set![pane_id],
        SplitNode::Split { first, second, .. } => leaf_set(*first).union(leaf_set(*second)),
    }
}

/// No pane shows up in two leaves of the tree.
pub open spec fn distinct_leaves(node: SplitNode) -> bool
    decreases node,
{
    match node {
        SplitNode::Leaf { .. } => true,
        SplitNode::Split { first, second, .. } => {
            &&& distinct_leaves(*first)
            &&& distinct_leaves(*second)
            &&& leaf_set(*first).disjoint(leaf_set(*second))
        },
    }
}

/// The tree with the leaf of `target` replaced by a split of `target` and `new_pane`
/// (the new pane first when `new_first`). The first matching leaf in left-to-right
/// order is replaced; a tree without `target` is returned unchanged.
pub open spec fn split_leaf(
    node: SplitNode,
    target: PaneId,
    axis: SplitAxis,
    ratio: u16,
    new_pane: PaneId,
    new_first: bool,
) -> SplitNode
    decreases node,
{
    match node {
        SplitNode::Leaf { pane_id } => {
            if pane_id == target {
                if new_first {
                    SplitNode::Split {
                        axis,
                        ratio,
                        first: Box::new(SplitNode::Leaf { pane_id: new_pane }),
                        second: Box::new(SplitNode::Leaf { pane_id: target }),
                    }
                } else {
                    SplitNode::Split {
                        axis,
                        ratio,
                        first: Box::new(SplitNode::Leaf { pane_id: target }),
                        second: Box::new(SplitNode::Leaf { pane_id: new_pane }),
                    }
                }
            } else {
                node
            }
        },
        SplitNode::Split { axis: a, ratio: r, first, second } => {
            if leaf_set(*first).contains(target) {
                SplitNode::Split {
                    axis: a,
                    ratio: r,
                    first: Box::new(split_leaf(*first, target, axis, ratio, new_pane, new_first)),
                    second,
                }
            } else {
                SplitNode::Split {
                    axis: a,
                    ratio: r,
                    first,
                    second: Box::new(split_leaf(*second, target, axis, ratio, new_pane, new_first)),
                }
            }
        },
    }
}

/// The tree with the leaf of `target` removed: the split that held it is replaced by
/// its other child. A tree without `target`, or a lone leaf, is returned unchanged.
pub open spec fn without_leaf(node: SplitNode, target: PaneId) -> SplitNode
    decreases node,
{
    match node {
        SplitNode::Leaf { .. } => node,
        SplitNode::Split { axis, ratio, first, second } => {
            if *first == (SplitNode::Leaf { pane_id: target }) {
                *second
            } else if *second == (SplitNode::Leaf { pane_id: target }) {
                *first
            } else if leaf_set(*first).contains(target) {
                SplitNode::Split { axis, ratio, first: Box::new(without_leaf(*first, target)), second }
            } else {
                SplitNode::Split { axis, ratio, first, second: Box::new(without_leaf(*second, target)) }
            }
        },
    }
}

/// The tree after asking to set the ratio of the split that holds `pane_id` in both
/// children to `ratio`; the search descends into the child that holds the pane.
pub open spec fn with_split_ratio(node: SplitNode, pane_id: PaneId, ratio: u16) -> SplitNode
    decreases node,
{
    match node {
        SplitNode::Leaf { .. } => node,
        SplitNode::Split { axis, ratio: r, first, second } => {
            let in_first = leaf_set(*first).contains(pane_id);
            let in_second = leaf_set(*second).contains(pane_id);
            if in_first && in_second {
                SplitNode::Split { axis, ratio, first, second }
            } else if in_first {
                SplitNode::Split { axis, ratio: r, first: Box::new(with_split_ratio(*first, pane_id, ratio)), second }
            } else if in_second {
                SplitNode::Split { axis, ratio: r, first, second: Box::new(with_split_ratio(*second, pane_id, ratio)) }
            } else {
                node
            }
        },
    }
}

pub proof fn lemma_leaf_set_finite(node: SplitNode)
    ensures
        leaf_set(node).finite(),
    decreases node,
{
    match node {
        SplitNode::Leaf { .. } => {},
        SplitNode::Split { first, second, .. } => {
            lemma_leaf_set_finite(*first);
            lemma_leaf_set_finite(*second);
        },
    }
}

/// Splitting a leaf adds the new pane to the tree and keeps the leaves distinct.
pub proof fn lemma_split_leaf(
    node: SplitNode,
    target: PaneId,
    axis: SplitAxis,
    ratio: u16,
    new_pane: PaneId,
    new_first: bool,
)
    requires
        distinct_leaves(node),
        leaf_set(node).contains(target),
        !leaf_set(node).contains(new_pane),
    ensures
        leaf_set(split_leaf(node, target, axis, ratio, new_pane, new_first)) == leaf_set(node).insert(new_pane),
        distinct_leaves(split_leaf(node, target, axis, ratio, new_pane, new_first)),
    decreases node,
{
    match node {
        SplitNode::Leaf { pane_id } => {
            let res = split_leaf(node, target, axis, ratio, new_pane, new_first);
            match res {
                SplitNode::Split { first, second, .. } => {
                    assert(leaf_set(*first) == set![first->pane_id]);
                    assert(leaf_set(*second) == set![second->pane_id]);
                    assert(pane_id == target);
                    assert(new_pane != target);
                    assert(leaf_set(*first).disjoint(leaf_set(*second)));
                    assert(distinct_leaves(*first));
                    assert(distinct_leaves(*second));
                    assert(distinct_leaves(res));
                },
                _ => {},
            }
            assert(leaf_set(res) =~= leaf_set(node).insert(new_pane));
        },
        SplitNode::Split { first, second, .. } => {
            if leaf_set(*first).contains(target) {
                lemma_split_leaf(*first, target, axis, ratio, new_pane, new_first);
            } else {
                lemma_split_leaf(*second, target, axis, ratio, new_pane, new_first);
            }
            assert(leaf_set(split_leaf(node, target, axis, ratio, new_pane, new_first))
                =~= leaf_set(node).insert(new_pane));
        },
    }
}

/// A tree without `target` is left as it is by removing `target`.
pub proof fn lemma_without_absent(node: SplitNode, target: PaneId)
    requires
        !leaf_set(node).contains(target),
    ensures
        without_leaf(node, target) == node,
    decreases node,
{
    match node {
        SplitNode::Leaf { .. } => {},
        SplitNode::Split { first, second, .. } => {
            if *first == (SplitNode::Leaf { pane_id: target }) {
                assert(leaf_set(*first).contains(target));
            }
            if *second == (SplitNode::Leaf { pane_id: target }) {
                assert(leaf_set(*second).contains(target));
            }
            lemma_without_absent(*second, target);
        },
    }
}

/// Removing a leaf takes its pane out of the tree and keeps the leaves distinct.
pub proof fn lemma_without_leaf(node: SplitNode, target: PaneId)
    requires
        distinct_leaves(node),
        node != (SplitNode::Leaf { pane_id: target }),
    ensures
        leaf_set(without_leaf(node, target)) == leaf_set(node).remove(target),
        distinct_leaves(without_leaf(node, target)),
    decreases node,
{
    match node {
        SplitNode::Leaf { pane_id } => {
            assert(leaf_set(node).remove(target) =~= leaf_set(node));
        },
        SplitNode::Split { first, second, .. } => {
            if *first == (SplitNode::Leaf { pane_id: target }) {
                assert(leaf_set(node).remove(target) =~= leaf_set(*second));
            } else if *second == (SplitNode::Leaf { pane_id: target }) {
                assert(leaf_set(node).remove(target) =~= leaf_set(*first));
            } else if leaf_set(*first).contains(target) {
                lemma_without_leaf(*first, target);
                assert(leaf_set(without_leaf(node, target)) =~= leaf_set(node).remove(target));
            } else {
                if leaf_set(*second).contains(target) {
                    lemma_without_leaf(*second, target);
                } else {
                    lemma_without_absent(*second, target);
                }
                assert(leaf_set(without_leaf(node, target)) =~= leaf_set(node).remove(target));
            }
        },
    }
}

/// Closing the pane that a split just added gives back the tree from before the split.
pub proof fn lemma_without_undoes_split(
    node: SplitNode,
    target: PaneId,
    axis: SplitAxis,
    ratio: u16,
    new_pane: PaneId,
    new_first: bool,
)
    requires
        distinct_leaves(node),
        leaf_set(node).contains(target),
        !leaf_set(node).contains(new_pane),
    ensures
        without_leaf(split_leaf(node, target, axis, ratio, new_pane, new_first), new_pane) == node,
    decreases node,
{
    match node {
        SplitNode::Leaf { .. } => {},
        SplitNode::Split { first, second, .. } => {
            if leaf_set(*first).contains(target) {
                lemma_without_undoes_split(*first, target, axis, ratio, new_pane, new_first);
                lemma_split_leaf(*first, target, axis, ratio, new_pane, new_first);
                lemma_without_absent(*second, new_pane);
            } else {
                lemma_without_undoes_split(*second, target, axis, ratio, new_pane, new_first);
                lemma_split_leaf(*second, target, axis, ratio, new_pane, new_first);
            }
        },
    }
}

/// In a tree with distinct leaves, no split holds a pane in both children, so the
/// ratio request changes nothing.
pub proof fn lemma_split_ratio_unchanged(node: SplitNode, pane_id: PaneId, ratio: u16)
    requires
        distinct_leaves(node),
    ensures
        with_split_ratio(node, pane_id, ratio) == node,
    decreases node,
{
    match node {
        SplitNode::Leaf { .. } => {},
        SplitNode::Split { first, second, .. } => {
            lemma_split_ratio_unchanged(*first, pane_id, ratio);
            lemma_split_ratio_unchanged(*second, pane_id, ratio);
        },
    }
}


/// Per-pane state: which session the pane shows and its accent color.
#[derive(Clone, Debug)]
pub struct PaneState {
    pub session_id: Option<String>,
    /// Index into the pane accent palette.
    pub color_index: usize,
}

/// The model of a pane state: the characters of its session id and its color.
pub struct PaneView {
    pub session: Option<Seq<char>>,
    pub color_index: usize,
}

/// The characters of an optional session id.
pub open spec fn session_view(s: Option<String>) -> Option<Seq<char>> {
    match s {
        Some(x) => Some(x@),
        None => None,
    }
}

/// The model of a pane state.
pub open spec fn pane_view(p: PaneState) -> PaneView {
    PaneView { session: session_view(p.session_id), color_index: p.color_index }
}

impl PaneState {
    pub fn with_color(color_index: usize) -> (p: PaneState)
        ensures
            p.session_id is None,
            p.color_index == color_index,
    {
        PaneState { session_id: None, color_index }
    }

    pub fn with_session(session_id: String, color_index: usize) -> (p: PaneState)
        ensures
            p.session_id == Some(session_id),
            p.color_index == color_index,
    {
        PaneState { session_id: Some(session_id), color_index }
    }
}

/// Model of the pane table: pane ids with their states, in table order.
pub type PaneSeq = Seq<(PaneId, PaneView)>;

/// Whether the table holds a pane with this id.
pub open spec fn has_pane(t: PaneSeq, id: PaneId) -> bool {
    exists|i: int| 0 <= i < t.len() && t[i].0 == id
}

/// No id occurs twice in the table.
pub open spec fn distinct_ids(t: PaneSeq) -> bool {
    forall|i: int, j: int| 0 <= i < j < t.len() ==> t[i].0 != t[j].0
}

/// The position of pane `id` in the table (meaningful when the table holds it).
pub open spec fn pane_index(t: PaneSeq, id: PaneId) -> int {
    choose|i: int| 0 <= i < t.len() && t[i].0 == id
}

/// The session that pane `id` shows (none when the table has no such pane).
pub open spec fn session_of(t: PaneSeq, id: PaneId) -> Option<Seq<char>> {
    if has_pane(t, id) {
        t[pane_index(t, id)].1.session
    } else {
        None
    }
}

/// The color index of pane `id`, if the table holds it.
pub open spec fn color_of(t: PaneSeq, id: PaneId) -> Option<usize> {
    if has_pane(t, id) {
        Some(t[pane_index(t, id)].1.color_index)
    } else {
        None
    }
}

/// The table with the session of pane `id` set to `s`.
pub open spec fn with_session(t: PaneSeq, id: PaneId, s: Option<Seq<char>>) -> PaneSeq {
    t.map_values(
        |e: (PaneId, PaneView)|
            if e.0 == id {
                (e.0, PaneView { session: s, color_index: e.1.color_index })
            } else {
                e
            },
    )
}

/// A table entry with session `s` taken off, unless it is pane `except`.
pub open spec fn cleared_entry(e: (PaneId, PaneView), s: Seq<char>, except: Option<PaneId>) -> (
    PaneId,
    PaneView,
) {
    if e.1.session == Some(s) && except != Some(e.0) {
        (e.0, PaneView { session: None, color_index: e.1.color_index })
    } else {
        e
    }
}

/// The table with session `s` taken off every pane except `except` (when given).
pub open spec fn cleared(t: PaneSeq, s: Seq<char>, except: Option<PaneId>) -> PaneSeq {
    t.map_values(|e: (PaneId, PaneView)| cleared_entry(e, s, except))
}

/// The largest pane id number in the table (0 for an empty table).
pub open spec fn max_pane_id(t: PaneSeq) -> u64
    decreases t.len(),
{
    if t.len() == 0 {
        0
    } else {
        let m = max_pane_id(t.drop_last());
        if t.last().0.0 > m {
            t.last().0.0
        } else {
            m
        }
    }
}

pub proof fn lemma_max_pane_id(t: PaneSeq)
    ensures
        forall|i: int| 0 <= i < t.len() ==> (#[trigger] t[i]).0.0 <= max_pane_id(t),
    decreases t.len(),
{
    if t.len() > 0 {
        lemma_max_pane_id(t.drop_last());
        assert forall|i: int| 0 <= i < t.len() implies (#[trigger] t[i]).0.0 <= max_pane_id(t) by {
            if i < t.len() - 1 {
                assert(t[i] == t.drop_last()[i]);
            }
        }
    }
}

/// The pane table, in insertion order.
#[derive(Clone, Debug)]
pub struct PaneTable {
    entries: Vec<(PaneId, PaneState)>,
}

impl View for PaneTable {
    type V = PaneSeq;

    closed spec fn view(&self) -> PaneSeq {
        self.entries@.map_values(|e: (PaneId, PaneState)| (e.0, pane_view(e.1)))
    }
}

impl PaneTable {
    /// The state of pane `id` as stored in the table.
    pub closed spec fn state(&self, i: int) -> PaneState {
        self.entries@[i].1
    }

    proof fn lemma_view(&self)
        ensures
            self@.len() == self.entries@.len(),
            forall|i: int|
                0 <= i < self.entries@.len() ==> #[trigger] self@[i] == (
                self.entries@[i].0,
                pane_view(self.entries@[i].1),
            ),
            forall|i: int| 0 <= i < self.entries@.len() ==> #[trigger] self.state(i) == self.entries@[i].1,
    {
    }

    pub fn empty() -> (t: PaneTable)
        ensures
            t@ == Seq::<(PaneId, PaneView)>::empty(),
    {
        let t = PaneTable { entries: Vec::new() };
        assert(t@ =~= Seq::<(PaneId, PaneView)>::empty());
        t
    }

    /// A table holding `entries`, in that order.
    pub fn from_entries(entries: Vec<(PaneId, PaneState)>) -> (t: PaneTable)
        ensures
            t@ == entries@.map_values(|e: (PaneId, PaneState)| (e.0, pane_view(e.1))),
    {
        PaneTable { entries }
    }

    pub fn len(&self) -> (n: usize)
        ensures
            n == self@.len(),
    {
        proof {
            self.lemma_view();
        }
        self.entries.len()
    }

    /// The position of pane `id`, if the table holds it (the first, should it occur twice).
    pub fn index_of(&self, id: PaneId) -> (r: Option<usize>)
        ensures
            match r {
                Some(i) => i < self@.len() && self@[i as int].0 == id && forall|k: int|
                    0 <= k < i ==> self@[k].0 != id,
                None => !has_pane(self@, id),
            },
    {
        proof {
            self.lemma_view();
        }
        let mut i: usize = 0;
        while i < self.entries.len()
            invariant
                i <= self.entries@.len(),
                self@.len() == self.entries@.len(),
                forall|k: int| 0 <= k < self.entries@.len() ==> #[trigger] self@[k] == (
                    self.entries@[k].0,
                    pane_view(self.entries@[k].1),
                ),
                forall|k: int| 0 <= k < i ==> self@[k].0 != id,
            decreases self.entries@.len() - i,
        {
            if self.entries[i].0 == id {
                return Some(i);
            }
            i = i + 1;
        }
        None
    }

    /// The state of pane `id`, if the table holds it.
    pub fn get(&self, id: &PaneId) -> (r: Option<&PaneState>)
        ensures
            match r {
                Some(p) => has_pane(self@, *id) && exists|i: int|
                    0 <= i < self@.len() && self@[i].0 == *id && pane_view(*p) == self@[i].1,
                None => !has_pane(self@, *id),
            },
    {
        proof {
            self.lemma_view();
        }
        match self.index_of(*id) {
            Some(i) => Some(&self.entries[i].1),
            None => None,
        }
    }

    /// The id of the pane at position `i`.
    pub fn id_at(&self, i: usize) -> (id: PaneId)
        requires
            i < self@.len(),
        ensures
            id == self@[i as int].0,
    {
        proof {
            self.lemma_view();
        }
        self.entries[i].0
    }

    /// The session id of the pane at position `i`.
    pub fn session_at(&self, i: usize) -> (s: &Option<String>)
        requires
            i < self@.len(),
        ensures
            session_view(*s) == self@[i as int].1.session,
    {
        proof {
            self.lemma_view();
        }
        &self.entries[i].1.session_id
    }

    /// The color index of the pane at position `i`.
    pub fn color_at(&self, i: usize) -> (c: usize)
        requires
            i < self@.len(),
        ensures
            c == self@[i as int].1.color_index,
    {
        proof {
            self.lemma_view();
        }
        self.entries[i].1.color_index
    }

    /// Sets the session of the pane at position `i`.
    fn set_session_at(&mut self, i: usize, session_id: Option<String>)
        requires
            i < old(self)@.len(),
        ensures
            final(self)@ == old(self)@.update(
                i as int,
                (old(self)@[i as int].0, PaneView { session: session_view(session_id), color_index: old(self)@[i as int].1.color_index }),
            ),
    {
        proof {
            self.lemma_view();
        }
        let id = self.entries[i].0;
        let color_index = self.entries[i].1.color_index;
        self.entries.set(i, (id, PaneState { session_id, color_index }));
        proof {
            self.lemma_view();
            assert(self@ =~= old(self)@.update(
                i as int,
                (old(self)@[i as int].0, PaneView { session: session_view(session_id), color_index: old(self)@[i as int].1.color_index }),
            ));
        }
    }

    /// Appends a pane at the end of the table.
    fn push(&mut self, id: PaneId, state: PaneState)
        ensures
            final(self)@ == old(self)@.push((id, pane_view(state))),
    {
        self.entries.push((id, state));
        proof {
            assert(self@ =~= old(self)@.push((id, pane_view(state))));
        }
    }

    /// Removes the entry at position `i`.
    fn remove_at(&mut self, i: usize)
        requires
            i < old(self)@.len(),
        ensures
            final(self)@ == old(self)@.remove(i as int),
    {
        self.entries.remove(i);
        proof {
            assert(self@ =~= old(self)@.remove(i as int));
        }
    }

    /// The largest pane id number in the table.
    fn max_id(&self) -> (m: u64)
        ensures
            m == max_pane_id(self@),
    {
        proof {
            self.lemma_view();
        }
        let mut m: u64 = 0;
        let mut i: usize = 0;
        while i < self.entries.len()
            invariant
                i <= self.entries@.len(),
                self@.len() == self.entries@.len(),
                forall|k: int| 0 <= k < self.entries@.len() ==> #[trigger] self@[k] == (
                    self.entries@[k].0,
                    pane_view(self.entries@[k].1),
                ),
                m == max_pane_id(self@.take(i as int)),
            decreases self.entries@.len() - i,
        {
            proof {
                assert(self@.take(i + 1).drop_last() =~= self@.take(i as int));
            }
            if self.entries[i].0.0 > m {
                m = self.entries[i].0.0;
            }
            i = i + 1;
        }
        proof {
            assert(self@.take(i as int) =~= self@);
        }
        m
    }
}

/// Under distinct ids, the position where `id` sits is the one `pane_index` names.
pub proof fn lemma_pane_index(t: PaneSeq, id: PaneId, i: int)
    requires
        distinct_ids(t),
        0 <= i < t.len(),
        t[i].0 == id,
    ensures
        has_pane(t, id),
        pane_index(t, id) == i,
{
    let j = pane_index(t, id);
    assert(0 <= j < t.len() && t[j].0 == id);
}


/// Most panes a workspace shows at once.
pub open spec fn max_panes_spec() -> nat {
    4
}

/// Model of a workspace layout.
pub struct LayoutView {
    pub root: SplitNode,
    pub panes: PaneSeq,
    pub focused: PaneId,
    /// The counter from which new pane ids are drawn.
    pub next_id: u64,
}

/// A well-formed layout: pane ids are distinct, there is at least one pane, and the
/// leaves of the split tree are exactly the panes of the table, each once.
/// (The focused pane may name a pane that is gone; it then shows nothing.)
pub open spec fn layout_wf(v: LayoutView) -> bool {
    &&& distinct_ids(v.panes)
    &&& v.panes.len() >= 1
    &&& distinct_leaves(v.root)
    &&& forall|id: PaneId| #[trigger] leaf_set(v.root).contains(id) <==> has_pane(v.panes, id)
}

/// The id a new pane receives: the counter, or one above the largest id in use where
/// that is larger. The counter only grows, so no id is drawn twice.
pub open spec fn fresh_pane_id(v: LayoutView) -> PaneId {
    if v.next_id > max_pane_id(v.panes) {
        PaneId(v.next_id)
    } else {
        PaneId((max_pane_id(v.panes) + 1) as u64)
    }
}

/// The counter after an id has been drawn: one above the id drawn.
pub open spec fn next_after_draw(v: LayoutView) -> u64 {
    (fresh_pane_id(v).0 + 1) as u64
}

/// A new pane id can be drawn and the counter moved past it (both below `u64::MAX`).
pub open spec fn can_draw_id(v: LayoutView) -> bool {
    &&& max_pane_id(v.panes) + 1 < u64::MAX
    &&& v.next_id < u64::MAX
}

/// The layout with the session of pane `pane` set to `s` (no change for an absent pane).
pub open spec fn assign_spec(v: LayoutView, pane: PaneId, s: Option<Seq<char>>) -> LayoutView {
    LayoutView { panes: with_session(v.panes, pane, s), ..v }
}

/// The layout with session `s` taken off every pane but `except` (every pane when `None`).
pub open spec fn clear_spec(v: LayoutView, s: Seq<char>, except: Option<PaneId>) -> LayoutView {
    LayoutView { panes: cleared(v.panes, s, except), ..v }
}

/// The table without pane `id`.
pub open spec fn remove_pane_spec(t: PaneSeq, id: PaneId) -> PaneSeq {
    if has_pane(t, id) {
        t.remove(pane_index(t, id))
    } else {
        t
    }
}

/// Closing pane `id`: refused when only one pane is left (or the tree is that lone
/// leaf); otherwise its leaf and table entry go, and a focus on it moves to the first
/// remaining pane.
pub open spec fn close_spec(v: LayoutView, id: PaneId) -> (LayoutView, bool) {
    if v.panes.len() <= 1 || v.root == (SplitNode::Leaf { pane_id: id }) {
        (v, false)
    } else {
        let panes = remove_pane_spec(v.panes, id);
        let focused = if v.focused == id {
            if panes.len() > 0 {
                panes[0].0
            } else {
                id
            }
        } else {
            v.focused
        };
        (LayoutView { root: without_leaf(v.root, id), panes, focused, next_id: v.next_id }, true)
    }
}

/// Position of the first pane that shows no session, or -1 when every pane shows one.
pub open spec fn first_empty_index(t: PaneSeq) -> int
    decreases t.len(),
{
    if t.len() == 0 {
        -1
    } else {
        let r = first_empty_index(t.drop_last());
        if r >= 0 {
            r
        } else if t.last().1.session is None {
            t.len() - 1
        } else {
            -1
        }
    }
}

pub proof fn lemma_first_empty_index(t: PaneSeq)
    ensures
        -1 <= first_empty_index(t) < t.len(),
        first_empty_index(t) == -1 ==> forall|k: int| 0 <= k < t.len() ==> (#[trigger] t[k]).1.session is Some,
        first_empty_index(t) >= 0 ==> t[first_empty_index(t)].1.session is None,
        forall|k: int| 0 <= k < first_empty_index(t) ==> (#[trigger] t[k]).1.session is Some,
    decreases t.len(),
{
    if t.len() > 0 {
        lemma_first_empty_index(t.drop_last());
        assert forall|k: int| 0 <= k < t.len() - 1 implies #[trigger] t[k] == t.drop_last()[k] by {}
    }
}

/// Repeatedly closing the first pane without a session while more than one pane is left.
pub open spec fn prune_spec(v: LayoutView) -> LayoutView
    decreases v.panes.len(),
{
    let i = first_empty_index(v.panes);
    if v.panes.len() > 1 && i >= 0 {
        proof {
            lemma_first_empty_index(v.panes);
        }
        let c = close_spec(v, v.panes[i].0);
        if c.1 {
            prune_spec(c.0)
        } else {
            v
        }
    } else {
        v
    }
}

/// Splitting pane `pane_id` (the new pane second): refused when the workspace is full
/// or the tree has no such leaf.
pub open spec fn split_spec(
    v: LayoutView,
    pane_id: PaneId,
    axis: SplitAxis,
    s: Option<Seq<char>>,
    color_index: usize,
) -> (LayoutView, Option<PaneId>) {
    if v.panes.len() >= max_panes_spec() || !leaf_set(v.root).contains(pane_id) {
        (v, None)
    } else {
        let new_pane = fresh_pane_id(v);
        (
            LayoutView {
                root: split_leaf(v.root, pane_id, axis, DEFAULT_SPLIT_RATIO, new_pane, false),
                panes: v.panes.push((new_pane, PaneView { session: s, color_index })),
                focused: v.focused,
                next_id: next_after_draw(v),
            },
            Some(new_pane),
        )
    }
}

/// Putting session `s` at `edge` of pane `target`:
/// - no such pane: nothing happens;
/// - workspace full: the focused pane shows `s` and no other pane does;
/// - the target already shows `s`: the target gets the focus;
/// - otherwise `s` leaves the other panes, a new pane showing it splits the target at
///   `edge`, and panes left empty are closed.
pub open spec fn insert_spec(
    v: LayoutView,
    target: PaneId,
    edge: DropEdge,
    s: Seq<char>,
    color_index: usize,
) -> (LayoutView, Option<PaneId>) {
    if !has_pane(v.panes, target) {
        (v, None)
    } else if v.panes.len() >= max_panes_spec() {
        (assign_spec(clear_spec(v, s, Some(v.focused)), v.focused, Some(s)), Some(v.focused))
    } else if session_of(v.panes, target) == Some(s) {
        (LayoutView { focused: target, ..v }, Some(target))
    } else {
        let new_pane = fresh_pane_id(v);
        let v1 = clear_spec(v, s, Some(target));
        let v2 = LayoutView {
            root: split_leaf(
                v1.root,
                target,
                edge_axis(edge),
                DEFAULT_SPLIT_RATIO,
                new_pane,
                edge_new_first(edge),
            ),
            panes: v1.panes.push((new_pane, PaneView { session: Some(s), color_index })),
            focused: v1.focused,
            next_id: next_after_draw(v),
        };
        (prune_spec(v2), Some(new_pane))
    }
}

/// Moving the session of pane `src` to `edge` of pane `target`.
pub open spec fn move_spec(
    v: LayoutView,
    src: PaneId,
    target: PaneId,
    edge: DropEdge,
    color_index: usize,
) -> (LayoutView, Option<PaneId>) {
    if src == target {
        (v, None)
    } else {
        match session_of(v.panes, src) {
            None => (v, None),
            Some(s) => {
                let r = insert_spec(assign_spec(v, src, None), target, edge, s, color_index);
                match r.1 {
                    None => r,
                    Some(p) => (prune_spec(r.0), Some(p)),
                }
            },
        }
    }
}

/// Dropping session `s` on a zone of the workspace.
pub open spec fn drop_spec(v: LayoutView, s: Seq<char>, zone: DropZone, color_index: usize) -> (
    LayoutView,
    Option<PaneId>,
) {
    match zone {
        DropZone::Root { edge } => insert_spec(v, v.focused, edge, s, color_index),
        DropZone::Pane { pane_id, edge } => insert_spec(v, pane_id, edge, s, color_index),
        DropZone::PaneCenter { pane_id } => {
            let v1 = assign_spec(clear_spec(v, s, Some(pane_id)), pane_id, Some(s));
            (LayoutView { focused: pane_id, ..v1 }, Some(pane_id))
        },
    }
}

/// The first pane of the table other than `id` (tables with distinct ids and at
/// least two panes).
pub open spec fn first_other(t: PaneSeq, id: PaneId) -> PaneId {
    if t[0].0 != id {
        t[0].0
    } else {
        t[1].0
    }
}

/// Hiding pane `id`: refused when only one pane is left; a focus on it moves to the
/// first other pane, then the pane is closed.
pub open spec fn hide_spec(v: LayoutView, id: PaneId) -> (LayoutView, bool) {
    if v.panes.len() <= 1 {
        (v, false)
    } else {
        let focused = if v.focused == id {
            first_other(v.panes, id)
        } else {
            v.focused
        };
        close_spec(LayoutView { focused, ..v }, id)
    }
}

/// Exchanging the sessions of panes `a` and `b` (an absent pane counts as showing none
/// and receives nothing).
pub open spec fn swap_spec(v: LayoutView, a: PaneId, b: PaneId) -> LayoutView {
    if a == b {
        v
    } else {
        let sa = session_of(v.panes, a);
        let sb = session_of(v.panes, b);
        LayoutView { panes: with_session(with_session(v.panes, a, sb), b, sa), ..v }
    }
}

/// Collapsing to one new pane that keeps the focused pane's session and color.
pub open spec fn collapse_spec(v: LayoutView) -> LayoutView {
    let new_pane = fresh_pane_id(v);
    let color_index = match color_of(v.panes, v.focused) {
        Some(c) => c,
        None => 0,
    };
    LayoutView {
        root: SplitNode::Leaf { pane_id: new_pane },
        panes: seq![(new_pane, PaneView { session: session_of(v.panes, v.focused), color_index })],
        focused: new_pane,
        next_id: next_after_draw(v),
    }
}


/// Two tables with the same ids in the same order agree on which panes exist and
/// on the distinctness of their ids.
pub proof fn lemma_same_ids(t1: PaneSeq, t2: PaneSeq)
    requires
        t1.len() == t2.len(),
        forall|i: int| 0 <= i < t1.len() ==> (#[trigger] t1[i]).0 == t2[i].0,
    ensures
        distinct_ids(t1) <==> distinct_ids(t2),
        forall|id: PaneId| has_pane(t1, id) <==> has_pane(t2, id),
{
    if distinct_ids(t1) {
        assert forall|i: int, j: int| 0 <= i < j < t2.len() implies t2[i].0 != t2[j].0 by {
            assert(t1[i].0 == t2[i].0);
            assert(t1[j].0 == t2[j].0);
        }
    }
    if distinct_ids(t2) {
        assert forall|i: int, j: int| 0 <= i < j < t1.len() implies t1[i].0 != t1[j].0 by {
            assert(t1[i].0 == t2[i].0);
            assert(t1[j].0 == t2[j].0);
        }
    }
    assert forall|id: PaneId| has_pane(t1, id) <==> has_pane(t2, id) by {
        if has_pane(t1, id) {
            let i = choose|i: int| 0 <= i < t1.len() && t1[i].0 == id;
            assert(t2[i].0 == id);
        }
        if has_pane(t2, id) {
            let i = choose|i: int| 0 <= i < t2.len() && t2[i].0 == id;
            assert(t1[i].0 == id);
        }
    }
}

/// Updating sessions keeps the ids, so a well-formed layout stays well-formed.
pub proof fn lemma_sessions_only(v: LayoutView, panes: PaneSeq)
    requires
        layout_wf(v),
        panes.len() == v.panes.len(),
        forall|i: int| 0 <= i < panes.len() ==> (#[trigger] panes[i]).0 == v.panes[i].0,
    ensures
        layout_wf(LayoutView { panes, ..v }),
        max_pane_id(panes) == max_pane_id(v.panes),
    decreases panes.len(),
{
    lemma_same_ids(v.panes, panes);
    lemma_same_max(v.panes, panes);
}

pub proof fn lemma_same_max(t1: PaneSeq, t2: PaneSeq)
    requires
        t1.len() == t2.len(),
        forall|i: int| 0 <= i < t1.len() ==> (#[trigger] t1[i]).0 == t2[i].0,
    ensures
        max_pane_id(t1) == max_pane_id(t2),
    decreases t1.len(),
{
    if t1.len() > 0 {
        assert forall|i: int| 0 <= i < t1.len() - 1 implies (#[trigger] t1.drop_last()[i]).0
            == t2.drop_last()[i].0 by {
            assert(t1.drop_last()[i] == t1[i]);
            assert(t2.drop_last()[i] == t2[i]);
        }
        lemma_same_max(t1.drop_last(), t2.drop_last());
    }
}

/// A well-formed layout with two or more panes has a split at its root.
pub proof fn lemma_root_not_leaf(v: LayoutView, id: PaneId)
    requires
        layout_wf(v),
        v.panes.len() > 1,
    ensures
        v.root != (SplitNode::Leaf { pane_id: id }),
{
    if v.root == (SplitNode::Leaf { pane_id: id }) {
        assert(has_pane(v.panes, v.panes[0].0));
        assert(has_pane(v.panes, v.panes[1].0));
        assert(leaf_set(v.root).contains(v.panes[0].0));
        assert(leaf_set(v.root).contains(v.panes[1].0));
        assert(false);
    }
}

/// A fresh id names no pane of the layout.
pub proof fn lemma_fresh_pane_id(v: LayoutView)
    requires
        can_draw_id(v),
    ensures
        !has_pane(v.panes, fresh_pane_id(v)),
{
    lemma_max_pane_id(v.panes);
    if has_pane(v.panes, fresh_pane_id(v)) {
        let i = choose|i: int| 0 <= i < v.panes.len() && v.panes[i].0 == fresh_pane_id(v);
        assert(v.panes[i].0.0 <= max_pane_id(v.panes));
    }
}

/// Removing a pane from a table with distinct ids.
pub proof fn lemma_remove_pane(t: PaneSeq, id: PaneId)
    requires
        distinct_ids(t),
        has_pane(t, id),
    ensures
        remove_pane_spec(t, id).len() == t.len() - 1,
        distinct_ids(remove_pane_spec(t, id)),
        forall|x: PaneId| has_pane(remove_pane_spec(t, id), x) <==> (has_pane(t, x) && x != id),
{
    let j = pane_index(t, id);
    let r = t.remove(j);
    assert forall|x: PaneId| has_pane(r, x) <==> (has_pane(t, x) && x != id) by {
        if has_pane(r, x) {
            let k = choose|k: int| 0 <= k < r.len() && r[k].0 == x;
            if k < j {
                assert(t[k] == r[k]);
            } else {
                assert(t[k + 1] == r[k]);
            }
        }
        if has_pane(t, x) && x != id {
            let k = choose|k: int| 0 <= k < t.len() && t[k].0 == x;
            if k < j {
                assert(r[k] == t[k]);
            } else {
                assert(k != j);
                assert(r[k - 1] == t[k]);
            }
        }
    }
}

/// Closing a pane of a well-formed layout with two or more panes succeeds and keeps
/// the layout well-formed.
pub proof fn lemma_close_wf(v: LayoutView, id: PaneId)
    requires
        layout_wf(v),
        v.panes.len() > 1,
    ensures
        close_spec(v, id).1,
        layout_wf(close_spec(v, id).0),
        has_pane(v.panes, id) ==> close_spec(v, id).0.panes.len() == v.panes.len() - 1,
        !has_pane(v.panes, id) ==> close_spec(v, id).0.panes == v.panes && close_spec(v, id).0.root == v.root,
        max_pane_id(close_spec(v, id).0.panes) <= max_pane_id(v.panes),
{
    lemma_root_not_leaf(v, id);
    let c = close_spec(v, id).0;
    lemma_without_leaf(v.root, id);
    if has_pane(v.panes, id) {
        lemma_remove_pane(v.panes, id);
        assert forall|x: PaneId| #[trigger] leaf_set(c.root).contains(x) <==> has_pane(c.panes, x) by {}
        lemma_max_remove(v.panes, pane_index(v.panes, id));
    } else {
        lemma_without_absent(v.root, id);
    }
}

pub proof fn lemma_max_remove(t: PaneSeq, j: int)
    requires
        0 <= j < t.len(),
    ensures
        max_pane_id(t.remove(j)) <= max_pane_id(t),
{
    let r = t.remove(j);
    lemma_max_pane_id(t);
    lemma_max_bound(r, max_pane_id(t));
    assert forall|k: int| 0 <= k < r.len() implies (#[trigger] r[k]).0.0 <= max_pane_id(t) by {
        if k < j {
            assert(r[k] == t[k]);
        } else {
            assert(r[k] == t[k + 1]);
        }
    }
}

/// The largest id is below any bound that all ids are below.
pub proof fn lemma_max_bound(t: PaneSeq, b: u64)
    requires
        forall|k: int| 0 <= k < t.len() ==> (#[trigger] t[k]).0.0 <= b,
    ensures
        max_pane_id(t) <= b,
    decreases t.len(),
{
    if t.len() > 0 {
        assert forall|k: int| 0 <= k < t.len() - 1 implies (#[trigger] t.drop_last()[k]).0.0 <= b by {
            assert(t.drop_last()[k] == t[k]);
        }
        lemma_max_bound(t.drop_last(), b);
    }
}

/// Pruning keeps a well-formed layout well-formed and never draws new ids.
pub proof fn lemma_prune_wf(v: LayoutView)
    requires
        layout_wf(v),
    ensures
        layout_wf(prune_spec(v)),
        max_pane_id(prune_spec(v).panes) <= max_pane_id(v.panes),
    decreases v.panes.len(),
{
    let i = first_empty_index(v.panes);
    lemma_first_empty_index(v.panes);
    if v.panes.len() > 1 && i >= 0 {
        let id = v.panes[i].0;
        lemma_close_wf(v, id);
        assert(has_pane(v.panes, id));
        lemma_prune_wf(close_spec(v, id).0);
    }
}

/// Splitting keeps a well-formed layout well-formed.
pub proof fn lemma_split_wf(v: LayoutView, pane_id: PaneId, axis: SplitAxis, s: Option<Seq<char>>, color_index: usize)
    requires
        layout_wf(v),
        can_draw_id(v),
    ensures
        layout_wf(split_spec(v, pane_id, axis, s, color_index).0),
{
    if !(v.panes.len() >= max_panes_spec() || !leaf_set(v.root).contains(pane_id)) {
        let new_pane = fresh_pane_id(v);
        lemma_fresh_pane_id(v);
        lemma_split_leaf(v.root, pane_id, axis, DEFAULT_SPLIT_RATIO, new_pane, false);
        let r = split_spec(v, pane_id, axis, s, color_index).0;
        push_fresh_wf(v.panes, new_pane, PaneView { session: s, color_index });
    }
}

/// Appending a pane with a new id keeps ids distinct and adds exactly that id.
pub proof fn push_fresh_wf(t: PaneSeq, id: PaneId, p: PaneView)
    requires
        distinct_ids(t),
        !has_pane(t, id),
    ensures
        distinct_ids(t.push((id, p))),
        forall|x: PaneId| #[trigger] has_pane(t.push((id, p)), x) <==> (has_pane(t, x) || x == id),
{
    let r = t.push((id, p));
    assert forall|x: PaneId| #[trigger] has_pane(r, x) <==> (has_pane(t, x) || x == id) by {
        if has_pane(r, x) {
            let k = choose|k: int| 0 <= k < r.len() && r[k].0 == x;
            if k < t.len() {
                assert(t[k] == r[k]);
            }
        }
        if has_pane(t, x) {
            let k = choose|k: int| 0 <= k < t.len() && t[k].0 == x;
            assert(r[k] == t[k]);
        }
        if x == id {
            assert(r[t.len() as int].0 == id);
        }
    }
    assert forall|i: int, j: int| 0 <= i < j < r.len() implies r[i].0 != r[j].0 by {
        if j == t.len() {
            assert(r[i] == t[i]);
            if r[i].0 == id {
                assert(has_pane(t, id));
            }
        } else {
            assert(r[i] == t[i]);
            assert(r[j] == t[j]);
        }
    }
}

/// Putting a session at an edge keeps a well-formed layout well-formed.
pub proof fn lemma_insert_wf(v: LayoutView, target: PaneId, edge: DropEdge, s: Seq<char>, color_index: usize)
    requires
        layout_wf(v),
        can_draw_id(v),
    ensures
        layout_wf(insert_spec(v, target, edge, s, color_index).0),
{
    if !has_pane(v.panes, target) {
    } else if v.panes.len() >= max_panes_spec() {
        let v1 = clear_spec(v, s, Some(v.focused));
        lemma_sessions_only(v, v1.panes);
        let v2 = assign_spec(v1, v.focused, Some(s));
        lemma_sessions_only(v1, v2.panes);
    } else if session_of(v.panes, target) == Some(s) {
    } else {
        let new_pane = fresh_pane_id(v);
        let v1 = clear_spec(v, s, Some(target));
        lemma_sessions_only(v, v1.panes);
        lemma_fresh_pane_id(v);
        lemma_same_ids(v.panes, v1.panes);
        lemma_split_leaf(v1.root, target, edge_axis(edge), DEFAULT_SPLIT_RATIO, new_pane, edge_new_first(edge));
        push_fresh_wf(v1.panes, new_pane, PaneView { session: Some(s), color_index });
        let v2 = LayoutView {
            root: split_leaf(v1.root, target, edge_axis(edge), DEFAULT_SPLIT_RATIO, new_pane, edge_new_first(edge)),
            panes: v1.panes.push((new_pane, PaneView { session: Some(s), color_index })),
            focused: v1.focused,
            next_id: next_after_draw(v),
        };
        assert(layout_wf(v2));
        lemma_prune_wf(v2);
    }
}


/// Position of the first pane that shows session `s`, or -1 when none does.
pub open spec fn first_session_index(t: PaneSeq, s: Seq<char>) -> int
    decreases t.len(),
{
    if t.len() == 0 {
        -1
    } else {
        let r = first_session_index(t.drop_last(), s);
        if r >= 0 {
            r
        } else if t.last().1.session == Some(s) {
            t.len() - 1
        } else {
            -1
        }
    }
}

pub proof fn lemma_first_session_index(t: PaneSeq, s: Seq<char>)
    ensures
        -1 <= first_session_index(t, s) < t.len(),
        first_session_index(t, s) == -1 ==> forall|k: int|
            0 <= k < t.len() ==> (#[trigger] t[k]).1.session != Some(s),
        first_session_index(t, s) >= 0 ==> t[first_session_index(t, s)].1.session == Some(s),
        forall|k: int| 0 <= k < first_session_index(t, s) ==> (#[trigger] t[k]).1.session != Some(s),
    decreases t.len(),
{
    if t.len() > 0 {
        lemma_first_session_index(t.drop_last(), s);
        assert forall|k: int| 0 <= k < t.len() - 1 implies #[trigger] t[k] == t.drop_last()[k] by {}
    }
}

/// The first pane (in table order) that shows session `s`.
pub open spec fn pane_for_session_spec(t: PaneSeq, s: Seq<char>) -> Option<PaneId> {
    let i = first_session_index(t, s);
    if i >= 0 {
        Some(t[i].0)
    } else {
        None
    }
}

/// The first position satisfying the minimality facts is the one `first_session_index` names.
pub proof fn lemma_first_session_unique(t: PaneSeq, s: Seq<char>, i: int)
    requires
        0 <= i < t.len(),
        t[i].1.session == Some(s),
        forall|k: int| 0 <= k < i ==> t[k].1.session != Some(s),
    ensures
        first_session_index(t, s) == i,
{
    lemma_first_session_index(t, s);
    let f = first_session_index(t, s);
    if f == -1 {
        assert(t[i].1.session != Some(s));
    } else if f < i {
        assert(t[f].1.session != Some(s));
    } else if f > i {
        assert(t[i].1.session != Some(s));
    }
}

/// Whether the tree holds a leaf for `pane_id`.
fn contains_pane(node: &SplitNode, pane_id: PaneId) -> (r: bool)
    ensures
        r == leaf_set(*node).contains(pane_id),
    decreases node,
{
    match node {
        SplitNode::Leaf { pane_id: id } => *id == pane_id,
        SplitNode::Split { first, second, .. } => contains_pane(first, pane_id) || contains_pane(
            second,
            pane_id,
        ),
    }
}

/// Replaces the first leaf of `target` by a split of `target` and `new_pane`.
fn replace_leaf_with_split(
    node: SplitNode,
    target: PaneId,
    axis: SplitAxis,
    ratio: u16,
    new_pane: PaneId,
    new_first: bool,
) -> (res: (SplitNode, bool))
    ensures
        res.0 == split_leaf(node, target, axis, ratio, new_pane, new_first),
        res.1 == leaf_set(node).contains(target),
    decreases node,
{
    match node {
        SplitNode::Leaf { pane_id } => {
            if pane_id == target {
                let (first_id, second_id) = if new_first {
                    (new_pane, pane_id)
                } else {
                    (pane_id, new_pane)
                };
                (
                    SplitNode::Split {
                        axis,
                        ratio,
                        first: Box::new(SplitNode::Leaf { pane_id: first_id }),
                        second: Box::new(SplitNode::Leaf { pane_id: second_id }),
                    },
                    true,
                )
            } else {
                (SplitNode::Leaf { pane_id }, false)
            }
        },
        SplitNode::Split { axis: a, ratio: r, first, second } => {
            if contains_pane(&first, target) {
                let (f, _) = replace_leaf_with_split(*first, target, axis, ratio, new_pane, new_first);
                (SplitNode::Split { axis: a, ratio: r, first: Box::new(f), second }, true)
            } else {
                let (s, found) = replace_leaf_with_split(
                    *second,
                    target,
                    axis,
                    ratio,
                    new_pane,
                    new_first,
                );
                (SplitNode::Split { axis: a, ratio: r, first, second: Box::new(s) }, found)
            }
        },
    }
}

fn is_leaf_of(node: &SplitNode, pane_id: PaneId) -> (r: bool)
    ensures
        r == (*node == (SplitNode::Leaf { pane_id })),
{
    match node {
        SplitNode::Leaf { pane_id: id } => *id == pane_id,
        SplitNode::Split { .. } => false,
    }
}

/// Removes the leaf of `target`, merging its sibling into the parent split.
fn remove_pane_from_tree(node: SplitNode, target: PaneId) -> (res: SplitNode)
    ensures
        res == without_leaf(node, target),
    decreases node,
{
    match node {
        SplitNode::Leaf { pane_id } => SplitNode::Leaf { pane_id },
        SplitNode::Split { axis, ratio, first, second } => {
            if is_leaf_of(&first, target) {
                *second
            } else if is_leaf_of(&second, target) {
                *first
            } else if contains_pane(&first, target) {
                SplitNode::Split {
                    axis,
                    ratio,
                    first: Box::new(remove_pane_from_tree(*first, target)),
                    second,
                }
            } else {
                SplitNode::Split {
                    axis,
                    ratio,
                    first,
                    second: Box::new(remove_pane_from_tree(*second, target)),
                }
            }
        },
    }
}

/// Sets the ratio of the split that holds `pane_id` in both children.
fn set_ratio_for_pane(node: SplitNode, pane_id: PaneId, ratio: u16) -> (res: SplitNode)
    ensures
        res == with_split_ratio(node, pane_id, ratio),
    decreases node,
{
    match node {
        SplitNode::Leaf { pane_id: id } => SplitNode::Leaf { pane_id: id },
        SplitNode::Split { axis, ratio: r, first, second } => {
            let in_first = contains_pane(&first, pane_id);
            let in_second = contains_pane(&second, pane_id);
            if in_first && in_second {
                SplitNode::Split { axis, ratio, first, second }
            } else if in_first {
                SplitNode::Split {
                    axis,
                    ratio: r,
                    first: Box::new(set_ratio_for_pane(*first, pane_id, ratio)),
                    second,
                }
            } else if in_second {
                SplitNode::Split {
                    axis,
                    ratio: r,
                    first,
                    second: Box::new(set_ratio_for_pane(*second, pane_id, ratio)),
                }
            } else {
                SplitNode::Split { axis, ratio: r, first, second }
            }
        },
    }
}

/// Whether an optional session id is the session `id`.
fn shows_session(s: &Option<String>, id: &str) -> (r: bool)
    ensures
        r == (session_view(*s) == Some(id@)),
{
    match s {
        Some(x) => str_eq(x.as_str(), id),
        None => false,
    }
}

/// Workspace multi-pane layout.
#[derive(Clone, Debug)]
pub struct WorkspaceLayout {
    pub root: SplitNode,
    pub panes: PaneTable,
    pub focused_pane: PaneId,
    /// The counter from which new pane ids are drawn; it only grows.
    pub next_pane_id: u64,
}

impl View for WorkspaceLayout {
    type V = LayoutView;

    open spec fn view(&self) -> LayoutView {
        LayoutView {
            root: self.root,
            panes: self.panes@,
            focused: self.focused_pane,
            next_id: self.next_pane_id,
        }
    }
}

impl WorkspaceLayout {
    /// A workspace with one empty pane (id 1, color 0), focused.
    pub fn new_single() -> (l: WorkspaceLayout)
        ensures
            layout_wf(l@),
            l@.root == (SplitNode::Leaf { pane_id: PaneId(1) }),
            l@.panes == seq![(PaneId(1), PaneView { session: None, color_index: 0 })],
            l@.focused == PaneId(1),
            l@.next_id == 2,
    {
        let pane_id = PaneId::new(1);
        let mut panes = PaneTable::empty();
        panes.push(pane_id, PaneState::with_color(0));
        let l = WorkspaceLayout {
            root: SplitNode::Leaf { pane_id },
            panes,
            focused_pane: pane_id,
            next_pane_id: 2,
        };
        proof {
            assert(l@.panes =~= seq![(PaneId(1), PaneView { session: None, color_index: 0 })]);
            assert(l@.panes[0].0 == pane_id);
            assert(has_pane(l@.panes, pane_id));
            assert forall|id: PaneId| #[trigger] leaf_set(l@.root).contains(id) <==> has_pane(l@.panes, id) by {
                if has_pane(l@.panes, id) {
                    let k = choose|k: int| 0 <= k < l@.panes.len() && l@.panes[k].0 == id;
                    assert(k == 0);
                }
            }
        }
        l
    }

    /// Most panes the workspace shows at once.
    pub fn max_panes() -> (n: usize)
        ensures
            n == max_panes_spec(),
    {
        4
    }

    pub fn pane_count(&self) -> (n: usize)
        ensures
            n == self@.panes.len(),
    {
        self.panes.len()
    }

    pub fn can_split(&self) -> (b: bool)
        ensures
            b == (self@.panes.len() < max_panes_spec()),
    {
        self.pane_count() < Self::max_panes()
    }

    /// The session id that the focused pane shows.
    pub fn focused_session_id(&self) -> (r: Option<&str>)
        requires
            layout_wf(self@),
        ensures
            match r {
                Some(s) => session_of(self@.panes, self@.focused) == Some(s@),
                None => session_of(self@.panes, self@.focused) is None,
            },
    {
        match self.panes.index_of(self.focused_pane) {
            Some(i) => {
                proof {
                    lemma_pane_index(self@.panes, self.focused_pane, i as int);
                }
                match self.panes.session_at(i) {
                    Some(s) => Some(s.as_str()),
                    None => None,
                }
            },
            None => None,
        }
    }

    pub fn highlighted_session_id(&self) -> (r: Option<&str>)
        requires
            layout_wf(self@),
        ensures
            match r {
                Some(s) => session_of(self@.panes, self@.focused) == Some(s@),
                None => session_of(self@.panes, self@.focused) is None,
            },
    {
        self.focused_session_id()
    }

    /// Sets the session that pane `pane` shows (nothing happens for an absent pane).
    pub fn assign_session(&mut self, pane: PaneId, session_id: Option<String>)
        requires
            layout_wf(old(self)@),
        ensures
            final(self)@ == assign_spec(old(self)@, pane, session_view(session_id)),
            layout_wf(final(self)@),
    {
        let ghost old_panes = self@.panes;
        match self.panes.index_of(pane) {
            Some(i) => {
                self.panes.set_session_at(i, session_id);
                proof {
                    assert forall|k: int| 0 <= k < old_panes.len() implies old_panes[k].0 != pane
                        || k == i by {
                        if k != i && old_panes[k].0 == pane {
                            if k < i {
                                assert(old_panes[k].0 != old_panes[i as int].0);
                            } else {
                                assert(old_panes[i as int].0 != old_panes[k].0);
                            }
                        }
                    }
                    assert(self@.panes =~= with_session(old_panes, pane, session_view(session_id)));
                }
            },
            None => {
                proof {
                    assert forall|k: int| 0 <= k < old_panes.len() implies old_panes[k].0 != pane by {
                        if old_panes[k].0 == pane {
                            assert(has_pane(old_panes, pane));
                        }
                    }
                    assert(self@.panes =~= with_session(old_panes, pane, session_view(session_id)));
                }
            },
        }
        proof {
            lemma_sessions_only(old(self)@, self@.panes);
        }
    }

    /// Takes session `session_id` off every pane except `except` (every pane when `None`).
    fn clear_session(&mut self, session_id: &str, except: Option<PaneId>)
        requires
            layout_wf(old(self)@),
        ensures
            final(self)@ == clear_spec(old(self)@, session_id@, except),
            layout_wf(final(self)@),
    {
        let ghost old_panes = self@.panes;
        let n = self.panes.len();
        let mut i: usize = 0;
        while i < n
            invariant
                n == old_panes.len(),
                i <= n,
                self@.root == old(self)@.root,
                self@.focused == old(self)@.focused,
                self@.next_id == old(self)@.next_id,
                self@.panes.len() == n,
                forall|k: int| 0 <= k < i ==> #[trigger] self@.panes[k] == cleared_entry(old_panes[k], session_id@, except),
                forall|k: int| i <= k < n ==> #[trigger] self@.panes[k] == old_panes[k],
            decreases n - i,
        {
            let id = self.panes.id_at(i);
            let other = match except {
                Some(e) => id != e,
                None => true,
            };
            if other && shows_session(self.panes.session_at(i), session_id) {
                self.panes.set_session_at(i, None);
            }
            i = i + 1;
        }
        proof {
            assert(self@.panes =~= cleared(old_panes, session_id@, except));
            lemma_sessions_only(old(self)@, self@.panes);
        }
    }

    pub fn clear_session_everywhere(&mut self, session_id: &str)
        requires
            layout_wf(old(self)@),
        ensures
            final(self)@ == clear_spec(old(self)@, session_id@, None),
            layout_wf(final(self)@),
    {
        self.clear_session(session_id, None);
    }

    /// Keeps session only on `except` pane; clears it from all others.
    pub fn clear_session_except_pane(&mut self, session_id: &str, except: PaneId)
        requires
            layout_wf(old(self)@),
        ensures
            final(self)@ == clear_spec(old(self)@, session_id@, Some(except)),
            layout_wf(final(self)@),
    {
        self.clear_session(session_id, Some(except));
    }

    /// The first pane (in table order) that shows session `session_id`.
    fn position_of_session(&self, session_id: &str) -> (r: Option<usize>)
        ensures
            match r {
                Some(i) => i < self@.panes.len() && self@.panes[i as int].1.session == Some(session_id@)
                    && forall|k: int| 0 <= k < i ==> self@.panes[k].1.session != Some(session_id@),
                None => forall|k: int|
                    0 <= k < self@.panes.len() ==> self@.panes[k].1.session != Some(session_id@),
            },
    {
        let n = self.panes.len();
        let mut i: usize = 0;
        while i < n
            invariant
                n == self@.panes.len(),
                i <= n,
                forall|k: int| 0 <= k < i ==> self@.panes[k].1.session != Some(session_id@),
            decreases n - i,
        {
            if shows_session(self.panes.session_at(i), session_id) {
                return Some(i);
            }
            i = i + 1;
        }
        None
    }

    /// Whether some pane shows session `session_id`.
    pub fn is_session_visible(&self, session_id: &str) -> (b: bool)
        ensures
            b == exists|k: int| 0 <= k < self@.panes.len() && self@.panes[k].1.session == Some(session_id@),
    {
        self.position_of_session(session_id).is_some()
    }

    /// The first pane (in table order) that shows session `session_id`.
    pub fn pane_for_session(&self, session_id: &str) -> (r: Option<PaneId>)
        ensures
            r == pane_for_session_spec(self@.panes, session_id@),
    {
        proof {
            lemma_first_session_index(self@.panes, session_id@);
        }
        match self.position_of_session(session_id) {
            Some(i) => {
                proof {
                    lemma_first_session_unique(self@.panes, session_id@, i as int);
                }
                Some(self.panes.id_at(i))
            },
            None => None,
        }
    }

    /// The session id that pane `pane` shows, as an owned copy.
    fn session_copy(&self, pane: PaneId) -> (r: Option<String>)
        requires
            layout_wf(self@),
        ensures
            session_view(r) == session_of(self@.panes, pane),
    {
        match self.panes.index_of(pane) {
            Some(i) => {
                proof {
                    lemma_pane_index(self@.panes, pane, i as int);
                }
                match self.panes.session_at(i) {
                    Some(s) => Some(s.clone()),
                    None => None,
                }
            },
            None => None,
        }
    }

    /// Exchanges the sessions that panes `a` and `b` show.
    pub fn swap_panes(&mut self, a: PaneId, b: PaneId)
        requires
            layout_wf(old(self)@),
        ensures
            final(self)@ == swap_spec(old(self)@, a, b),
            layout_wf(final(self)@),
    {
        if a == b {
            return;
        }
        let sa = self.session_copy(a);
        let sb = self.session_copy(b);
        self.assign_session(a, sb);
        self.assign_session(b, sa);
    }

    /// The id for a new pane (see [`fresh_pane_id`]).
    fn fresh_id(&self) -> (id: PaneId)
        requires
            can_draw_id(self@),
        ensures
            id == fresh_pane_id(self@),
            id.0 < u64::MAX,
    {
        let m = self.panes.max_id();
        if self.next_pane_id > m {
            PaneId::new(self.next_pane_id)
        } else {
            PaneId::new(m + 1)
        }
    }

    /// Removes a pane and merges its sibling into the parent split.
    pub fn close_pane(&mut self, pane_id: PaneId) -> (closed: bool)
        requires
            layout_wf(old(self)@),
        ensures
            (final(self)@, closed) == close_spec(old(self)@, pane_id),
            layout_wf(final(self)@),
    {
        if self.pane_count() <= 1 {
            return false;
        }
        if is_leaf_of(&self.root, pane_id) {
            return false;
        }
        proof {
            lemma_close_wf(old(self)@, pane_id);
        }
        let mut root = SplitNode::Leaf { pane_id };
        std::mem::swap(&mut root, &mut self.root);
        self.root = remove_pane_from_tree(root, pane_id);
        match self.panes.index_of(pane_id) {
            Some(i) => {
                proof {
                    lemma_pane_index(old(self)@.panes, pane_id, i as int);
                }
                self.panes.remove_at(i);
            },
            None => {},
        }
        if self.focused_pane == pane_id {
            if self.panes.len() > 0 {
                self.focused_pane = self.panes.id_at(0);
            }
        }
        true
    }

    /// The first pane without a session, if any.
    fn first_empty(&self) -> (r: Option<usize>)
        ensures
            match r {
                Some(i) => i as int == first_empty_index(self@.panes),
                None => first_empty_index(self@.panes) == -1,
            },
    {
        proof {
            lemma_first_empty_index(self@.panes);
        }
        let n = self.panes.len();
        let mut i: usize = 0;
        while i < n
            invariant
                n == self@.panes.len(),
                i <= n,
                forall|k: int| 0 <= k < i ==> (#[trigger] self@.panes[k]).1.session is Some,
                -1 <= first_empty_index(self@.panes) < n,
                first_empty_index(self@.panes) == -1 ==> forall|k: int|
                    0 <= k < n ==> (#[trigger] self@.panes[k]).1.session is Some,
                first_empty_index(self@.panes) >= 0 ==> self@.panes[first_empty_index(self@.panes)].1.session is None,
                forall|k: int| 0 <= k < first_empty_index(self@.panes) ==> (#[trigger] self@.panes[k]).1.session is Some,
            decreases n - i,
        {
            if self.panes.session_at(i).is_none() {
                return Some(i);
            }
            i = i + 1;
        }
        None
    }

    /// Closes panes without a session, first in table order first, while more than
    /// one pane is left.
    fn prune_empty_panes(&mut self)
        requires
            layout_wf(old(self)@),
        ensures
            final(self)@ == prune_spec(old(self)@),
            layout_wf(final(self)@),
    {
        while self.pane_count() > 1
            invariant
                layout_wf(self@),
                prune_spec(self@) == prune_spec(old(self)@),
            ensures
                layout_wf(self@),
                self@ == prune_spec(old(self)@),
            decreases self@.panes.len(),
        {
            proof {
                lemma_first_empty_index(self@.panes);
            }
            match self.first_empty() {
                None => {
                    break;
                },
                Some(i) => {
                    let id = self.panes.id_at(i);
                    let ghost before = self@;
                    proof {
                        lemma_close_wf(before, id);
                        assert(before.panes[i as int].0 == id);
                        assert(has_pane(before.panes, id));
                    }
                    let closed = self.close_pane(id);
                    if !closed {
                        break;
                    }
                },
            }
        }
    }

    /// Splits `pane_id` into two leaves (the new pane second); returns the new pane id.
    pub fn split_pane(
        &mut self,
        pane_id: PaneId,
        axis: SplitAxis,
        new_session_id: Option<String>,
        new_color_index: usize,
    ) -> (r: Option<PaneId>)
        requires
            layout_wf(old(self)@),
            can_draw_id(old(self)@),
        ensures
            (final(self)@, r) == split_spec(old(self)@, pane_id, axis, session_view(new_session_id), new_color_index),
            layout_wf(final(self)@),
    {
        proof {
            lemma_split_wf(old(self)@, pane_id, axis, session_view(new_session_id), new_color_index);
        }
        if !self.can_split() {
            return None;
        }
        let new_pane = self.fresh_id();
        let mut root = SplitNode::Leaf { pane_id };
        std::mem::swap(&mut root, &mut self.root);
        let (new_root, found) = replace_leaf_with_split(
            root,
            pane_id,
            axis,
            DEFAULT_SPLIT_RATIO,
            new_pane,
            false,
        );
        self.root = new_root;
        if !found {
            proof {
                lemma_without_absent(old(self)@.root, pane_id);
                lemma_split_absent(old(self)@.root, pane_id, axis, DEFAULT_SPLIT_RATIO, new_pane, false);
            }
            return None;
        }
        let state = match new_session_id {
            Some(sid) => PaneState::with_session(sid, new_color_index),
            None => PaneState::with_color(new_color_index),
        };
        self.panes.push(new_pane, state);
        self.next_pane_id = new_pane.0 + 1;
        Some(new_pane)
    }

    /// Puts session `session_id` at `edge` of pane `target`; returns the pane that shows it.
    pub fn insert_session_at_edge(
        &mut self,
        target: PaneId,
        edge: DropEdge,
        session_id: String,
        new_color_index: usize,
    ) -> (r: Option<PaneId>)
        requires
            layout_wf(old(self)@),
            can_draw_id(old(self)@),
        ensures
            (final(self)@, r) == insert_spec(old(self)@, target, edge, session_id@, new_color_index),
            layout_wf(final(self)@),
    {
        proof {
            lemma_insert_wf(old(self)@, target, edge, session_id@, new_color_index);
        }
        let ti = match self.panes.index_of(target) {
            Some(i) => i,
            None => {
                return None;
            },
        };
        proof {
            lemma_pane_index(self@.panes, target, ti as int);
        }
        if !self.can_split() {
            let focused = self.focused_pane;
            self.clear_session_except_pane(session_id.as_str(), focused);
            self.assign_session(focused, Some(session_id));
            return Some(focused);
        }
        if shows_session(self.panes.session_at(ti), session_id.as_str()) {
            self.focused_pane = target;
            return Some(target);
        }
        let new_pane = self.fresh_id();
        self.clear_session_except_pane(session_id.as_str(), target);
        let ghost v1 = self@;
        proof {
            lemma_same_max(old(self)@.panes, v1.panes);
            lemma_same_ids(old(self)@.panes, v1.panes);
        }
        let mut root = SplitNode::Leaf { pane_id: target };
        std::mem::swap(&mut root, &mut self.root);
        let (new_root, found) = replace_leaf_with_split(
            root,
            target,
            edge.split_axis(),
            DEFAULT_SPLIT_RATIO,
            new_pane,
            edge.new_pane_first(),
        );
        self.root = new_root;
        proof {
            assert(found);
        }
        self.panes.push(new_pane, PaneState::with_session(session_id, new_color_index));
        self.next_pane_id = new_pane.0 + 1;
        proof {
            lemma_fresh_pane_id(old(self)@);
            lemma_split_leaf(v1.root, target, edge_axis(edge), DEFAULT_SPLIT_RATIO, new_pane, edge_new_first(edge));
            push_fresh_wf(v1.panes, new_pane, PaneView { session: Some(session_id@), color_index: new_color_index });
        }
        self.prune_empty_panes();
        Some(new_pane)
    }

    /// Moves the session of pane `src` to `edge` of pane `target`.
    pub fn move_pane_to_edge(
        &mut self,
        src: PaneId,
        target: PaneId,
        edge: DropEdge,
        new_color_index: usize,
    ) -> (r: Option<PaneId>)
        requires
            layout_wf(old(self)@),
            can_draw_id(old(self)@),
        ensures
            (final(self)@, r) == move_spec(old(self)@, src, target, edge, new_color_index),
            layout_wf(final(self)@),
    {
        if src == target {
            return None;
        }
        let session = match self.session_copy(src) {
            Some(s) => s,
            None => {
                return None;
            },
        };
        self.assign_session(src, None);
        proof {
            lemma_sessions_only(old(self)@, self@.panes);
        }
        let new_pane = match self.insert_session_at_edge(target, edge, session, new_color_index) {
            Some(p) => p,
            None => {
                return None;
            },
        };
        self.prune_empty_panes();
        Some(new_pane)
    }

    /// Drops session `session_id` on a zone of the workspace; returns the pane that shows it.
    pub fn apply_session_drop(&mut self, session_id: &str, zone: DropZone, new_color_index: usize) -> (r:
        Option<PaneId>)
        requires
            layout_wf(old(self)@),
            can_draw_id(old(self)@),
        ensures
            (final(self)@, r) == drop_spec(old(self)@, session_id@, zone, new_color_index),
            layout_wf(final(self)@),
    {
        match zone {
            DropZone::Root { edge } => {
                let target = self.focused_pane;
                self.insert_session_at_edge(target, edge, to_owned(session_id), new_color_index)
            },
            DropZone::Pane { pane_id, edge } => {
                self.insert_session_at_edge(pane_id, edge, to_owned(session_id), new_color_index)
            },
            DropZone::PaneCenter { pane_id } => {
                self.clear_session_except_pane(session_id, pane_id);
                self.assign_session(pane_id, Some(to_owned(session_id)));
                self.focused_pane = pane_id;
                Some(pane_id)
            },
        }
    }

    /// Removes pane from layout without closing the session (minimize).
    pub fn hide_pane(&mut self, pane_id: PaneId) -> (hidden: bool)
        requires
            layout_wf(old(self)@),
        ensures
            (final(self)@, hidden) == hide_spec(old(self)@, pane_id),
            layout_wf(final(self)@),
    {
        if self.pane_count() <= 1 {
            return false;
        }
        if self.focused_pane == pane_id {
            let first = self.panes.id_at(0);
            self.focused_pane = if first != pane_id {
                first
            } else {
                self.panes.id_at(1)
            };
        }
        self.close_pane(pane_id)
    }

    /// Sets the ratio (in thousandths, clamped to 150..=850) of the split that holds
    /// `pane_id` in both children. No split of a well-formed layout holds a pane twice,
    /// so a well-formed layout stays as it is.
    pub fn set_split_ratio(&mut self, pane_id: PaneId, ratio: u16)
        ensures
            final(self)@ == (LayoutView {
                root: with_split_ratio(old(self)@.root, pane_id, clamped_ratio(ratio)),
                ..old(self)@
            }),
            layout_wf(old(self)@) ==> final(self)@ == old(self)@,
    {
        let r = if ratio < MIN_SPLIT_RATIO {
            MIN_SPLIT_RATIO
        } else if ratio > MAX_SPLIT_RATIO {
            MAX_SPLIT_RATIO
        } else {
            ratio
        };
        let mut root = SplitNode::Leaf { pane_id };
        std::mem::swap(&mut root, &mut self.root);
        self.root = set_ratio_for_pane(root, pane_id, r);
        proof {
            if layout_wf(old(self)@) {
                lemma_split_ratio_unchanged(old(self)@.root, pane_id, r);
            }
        }
    }

    /// Collapses to a single new pane keeping the focused session; other sessions stay
    /// in the pool.
    pub fn collapse_to_focused(&mut self)
        requires
            layout_wf(old(self)@),
            can_draw_id(old(self)@),
        ensures
            final(self)@ == collapse_spec(old(self)@),
            layout_wf(final(self)@),
    {
        let focused = self.focused_pane;
        let session = self.session_copy(focused);
        let pane_id = self.fresh_id();
        let color_index = match self.panes.index_of(focused) {
            Some(i) => {
                proof {
                    lemma_pane_index(self@.panes, focused, i as int);
                }
                self.panes.color_at(i)
            },
            None => 0,
        };
        let mut panes = PaneTable::empty();
        panes.push(pane_id, PaneState { session_id: session, color_index });
        self.root = SplitNode::Leaf { pane_id };
        self.panes = panes;
        self.focused_pane = pane_id;
        self.next_pane_id = pane_id.0 + 1;
        proof {
            let v = self@;
            assert(v.panes =~= collapse_spec(old(self)@).panes);
            assert(v.panes[0].0 == pane_id);
            assert(has_pane(v.panes, pane_id));
            assert forall|id: PaneId| #[trigger] leaf_set(v.root).contains(id) <==> has_pane(v.panes, id) by {
                if has_pane(v.panes, id) {
                    let k = choose|k: int| 0 <= k < v.panes.len() && v.panes[k].0 == id;
                    assert(k == 0);
                }
            }
        }
    }

    /// On narrow screens, collapses to a single pane showing the focused session.
    pub fn collapse_to_single(&mut self)
        requires
            layout_wf(old(self)@),
            can_draw_id(old(self)@),
        ensures
            final(self)@ == collapse_spec(old(self)@),
            layout_wf(final(self)@),
    {
        self.collapse_to_focused();
    }
}


/// Narrowest function pane, in pixels.
pub const FUNCTION_MIN_WIDTH: u32 = 200;

/// Widest function pane, in pixels.
pub const FUNCTION_MAX_WIDTH: u32 = 360;

/// Function pane width before any setting, in pixels.
pub const FUNCTION_DEFAULT_WIDTH: u32 = 220;

/// Narrowest workspace pane, in pixels.
pub const MIN_PANE_WIDTH: u32 = 120;

/// Lowest workspace pane, in pixels.
pub const MIN_PANE_HEIGHT: u32 = 80;

/// Top-level shell layout state.
#[derive(Clone, Debug)]
pub struct ShellLayout {
    /// Width of the function pane, in whole pixels.
    pub function_width: u32,
    pub function_page: FunctionPage,
    pub workspace: WorkspaceLayout,
    /// Settings shown as a centered dialog (not a full-page overlay).
    pub settings_dialog_open: bool,
    /// About / help placeholder dialog.
    pub help_dialog_open: bool,
    /// Saved connections browser (Connection → Open).
    pub connections_dialog_open: bool,
    /// Favorite commands manager (Commands → Manage).
    pub commands_manage_dialog_open: bool,
    /// Auth users manager (Preferences → Users).
    pub users_manage_dialog_open: bool,
}

/// The width a setting gives the function pane: the default when unset, clamped to
/// the allowed range.
pub open spec fn function_width_for(setting: Option<u32>) -> u32 {
    let w = match setting {
        Some(w) => w,
        None => FUNCTION_DEFAULT_WIDTH,
    };
    if w < FUNCTION_MIN_WIDTH {
        FUNCTION_MIN_WIDTH
    } else if w > FUNCTION_MAX_WIDTH {
        FUNCTION_MAX_WIDTH
    } else {
        w
    }
}

/// The shell state at start-up, apart from the function pane width.
pub open spec fn is_initial_shell(l: ShellLayout) -> bool {
    &&& l.function_page == FunctionPage::Active
    &&& l.workspace@ == WorkspaceLayout::new_single_spec()
    &&& !l.settings_dialog_open
    &&& !l.help_dialog_open
    &&& !l.connections_dialog_open
    &&& !l.commands_manage_dialog_open
    &&& !l.users_manage_dialog_open
}

impl WorkspaceLayout {
    /// The model of a fresh single-pane workspace.
    pub open spec fn new_single_spec() -> LayoutView {
        LayoutView {
            root: SplitNode::Leaf { pane_id: PaneId(1) },
            panes: seq![(PaneId(1), PaneView { session: None, color_index: 0 })],
            focused: PaneId(1),
            next_id: 2,
        }
    }
}

impl Default for ShellLayout {
    fn default() -> (l: ShellLayout)
        ensures
            l.function_width == FUNCTION_DEFAULT_WIDTH,
            is_initial_shell(l),
            layout_wf(l.workspace@),
    {
        ShellLayout {
            function_width: FUNCTION_DEFAULT_WIDTH,
            function_page: FunctionPage::Active,
            workspace: WorkspaceLayout::new_single(),
            settings_dialog_open: false,
            help_dialog_open: false,
            connections_dialog_open: false,
            commands_manage_dialog_open: false,
            users_manage_dialog_open: false,
        }
    }
}

impl ShellLayout {
    /// The start-up shell with the function pane width taken from the settings.
    pub fn from_settings(function_width: Option<u32>) -> (l: ShellLayout)
        ensures
            l.function_width == function_width_for(function_width),
            is_initial_shell(l),
            layout_wf(l.workspace@),
    {
        let w = match function_width {
            Some(w) => w,
            None => FUNCTION_DEFAULT_WIDTH,
        };
        let w = if w < FUNCTION_MIN_WIDTH {
            FUNCTION_MIN_WIDTH
        } else if w > FUNCTION_MAX_WIDTH {
            FUNCTION_MAX_WIDTH
        } else {
            w
        };
        let mut l = ShellLayout::default();
        l.function_width = w;
        l
    }
}

/// A tree without `target` is left as it is by splitting `target`.
pub proof fn lemma_split_absent(
    node: SplitNode,
    target: PaneId,
    axis: SplitAxis,
    ratio: u16,
    new_pane: PaneId,
    new_first: bool,
)
    requires
        !leaf_set(node).contains(target),
    ensures
        split_leaf(node, target, axis, ratio, new_pane, new_first) == node,
    decreases node,
{
    match node {
        SplitNode::Leaf { .. } => {},
        SplitNode::Split { first, second, .. } => {
            lemma_split_absent(*second, target, axis, ratio, new_pane, new_first);
        },
    }
}


impl Default for PaneState {
    fn default() -> (p: PaneState)
        ensures
            p.session_id is None,
            p.color_index == 0,
    {
        PaneState { session_id: None, color_index: 0 }
    }
}

} // verus!
