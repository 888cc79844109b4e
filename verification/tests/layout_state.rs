use uishell::layout_state::{
    PaneState, DropEdge, DropZone, PaneId, ShellLayout, SplitAxis, SplitNode, WorkspaceLayout,
    FUNCTION_DEFAULT_WIDTH, FUNCTION_MAX_WIDTH, FUNCTION_MIN_WIDTH,
};

fn session_of(layout: &WorkspaceLayout, pane: PaneId) -> Option<&str> {
    layout.panes.get(&pane).and_then(|p| p.session_id.as_deref())
}

#[test]
fn split_and_close_pane() {
    let mut layout = WorkspaceLayout::new_single();
    let root_pane = layout.focused_pane;
    let new = layout
        .split_pane(root_pane, SplitAxis::Horizontal, None, 1)
        .unwrap();
    assert_eq!(layout.pane_count(), 2);
    assert!(layout.close_pane(new));
    assert_eq!(layout.pane_count(), 1);
}

#[test]
fn insert_session_at_edge_splits() {
    let mut layout = WorkspaceLayout::new_single();
    let root = layout.focused_pane;
    layout.assign_session(root, Some("a".into()));
    let new = layout
        .insert_session_at_edge(root, DropEdge::Right, "b".into(), 1)
        .unwrap();
    assert_eq!(layout.pane_count(), 2);
    assert_eq!(
        layout.panes.get(&new).and_then(|p| p.session_id.as_deref()),
        Some("b")
    );
}

#[test]
fn collapse_to_focused_keeps_session() {
    let mut layout = WorkspaceLayout::new_single();
    let root = layout.focused_pane;
    layout
        .split_pane(root, SplitAxis::Horizontal, Some("other".into()), 1)
        .unwrap();
    layout.assign_session(layout.focused_pane, Some("focus".into()));
    layout.collapse_to_focused();
    assert_eq!(layout.pane_count(), 1);
    assert_eq!(layout.focused_session_id(), Some("focus"));
}

#[test]
fn insert_same_session_at_edge_is_noop() {
    let mut layout = WorkspaceLayout::new_single();
    let root = layout.focused_pane;
    layout.assign_session(root, Some("a".into()));
    let result = layout
        .insert_session_at_edge(root, DropEdge::Right, "a".into(), 1)
        .unwrap();
    assert_eq!(result, root);
    assert_eq!(layout.pane_count(), 1);
    assert_eq!(layout.focused_session_id(), Some("a"));
}

#[test]
fn swap_panes_exchanges_sessions() {
    let mut layout = WorkspaceLayout::new_single();
    let a = layout.focused_pane;
    let b = layout
        .split_pane(a, SplitAxis::Horizontal, Some("b".into()), 1)
        .unwrap();
    layout.assign_session(a, Some("a".into()));
    layout.swap_panes(a, b);
    assert_eq!(
        layout.panes.get(&a).and_then(|p| p.session_id.as_deref()),
        Some("b")
    );
    assert_eq!(
        layout.panes.get(&b).and_then(|p| p.session_id.as_deref()),
        Some("a")
    );
}

#[test]
fn new_single_has_one_focused_empty_pane() {
    let layout = WorkspaceLayout::new_single();
    assert_eq!(layout.pane_count(), 1);
    assert_eq!(layout.focused_session_id(), None);
    assert!(matches!(layout.root, SplitNode::Leaf { pane_id } if pane_id == layout.focused_pane));
}

#[test]
fn close_undoes_split_tree() {
    let mut layout = WorkspaceLayout::new_single();
    let root = layout.focused_pane;
    let new = layout.split_pane(root, SplitAxis::Vertical, Some("x".into()), 2).unwrap();
    assert!(matches!(layout.root, SplitNode::Split { .. }));
    assert!(layout.close_pane(new));
    assert!(matches!(layout.root, SplitNode::Leaf { pane_id } if pane_id == root));
}

#[test]
fn close_last_pane_is_refused() {
    let mut layout = WorkspaceLayout::new_single();
    let root = layout.focused_pane;
    assert!(!layout.close_pane(root));
    assert_eq!(layout.pane_count(), 1);
}

#[test]
fn close_unknown_pane_changes_nothing() {
    let mut layout = WorkspaceLayout::new_single();
    let root = layout.focused_pane;
    layout.split_pane(root, SplitAxis::Horizontal, None, 1).unwrap();
    assert!(layout.close_pane(PaneId::new(999)));
    assert_eq!(layout.pane_count(), 2);
    assert_eq!(layout.focused_pane, root);
}

#[test]
fn split_stops_at_max_panes() {
    let mut layout = WorkspaceLayout::new_single();
    let root = layout.focused_pane;
    for _ in 0..3 {
        assert!(layout.split_pane(root, SplitAxis::Horizontal, None, 1).is_some());
    }
    assert_eq!(layout.pane_count(), WorkspaceLayout::max_panes());
    assert!(!layout.can_split());
    assert!(layout.split_pane(root, SplitAxis::Horizontal, None, 1).is_none());
    assert_eq!(layout.pane_count(), 4);
}

#[test]
fn split_unknown_pane_gives_none() {
    let mut layout = WorkspaceLayout::new_single();
    assert!(layout.split_pane(PaneId::new(77), SplitAxis::Horizontal, None, 1).is_none());
    assert_eq!(layout.pane_count(), 1);
}

#[test]
fn insert_when_full_replaces_focused_session() {
    let mut layout = WorkspaceLayout::new_single();
    let root = layout.focused_pane;
    layout.assign_session(root, Some("a".into()));
    for name in ["b", "c", "d"] {
        layout.insert_session_at_edge(root, DropEdge::Bottom, name.into(), 1).unwrap();
    }
    assert_eq!(layout.pane_count(), 4);
    let focused = layout.focused_pane;
    let r = layout.insert_session_at_edge(root, DropEdge::Left, "e".into(), 1);
    assert_eq!(r, Some(focused));
    assert_eq!(layout.pane_count(), 4);
    assert_eq!(layout.focused_session_id(), Some("e"));
}

#[test]
fn insert_moves_session_shown_elsewhere() {
    let mut layout = WorkspaceLayout::new_single();
    let root = layout.focused_pane;
    layout.assign_session(root, Some("a".into()));
    let b = layout.insert_session_at_edge(root, DropEdge::Right, "b".into(), 1).unwrap();
    let c = layout.insert_session_at_edge(b, DropEdge::Bottom, "a".into(), 2).unwrap();
    assert_eq!(session_of(&layout, c), Some("a"));
    assert_eq!(session_of(&layout, root), None);
    assert_eq!(layout.pane_for_session("a"), Some(c));
}

#[test]
fn clear_session_everywhere_hides_it() {
    let mut layout = WorkspaceLayout::new_single();
    let root = layout.focused_pane;
    layout.assign_session(root, Some("a".into()));
    assert!(layout.is_session_visible("a"));
    layout.clear_session_everywhere("a");
    assert!(!layout.is_session_visible("a"));
    assert_eq!(layout.pane_for_session("a"), None);
}

#[test]
fn center_drop_focuses_target_and_moves_session() {
    let mut layout = WorkspaceLayout::new_single();
    let a = layout.focused_pane;
    layout.assign_session(a, Some("x".into()));
    let b = layout.split_pane(a, SplitAxis::Horizontal, Some("y".into()), 1).unwrap();
    let r = layout.apply_session_drop("x", DropZone::PaneCenter { pane_id: b }, 3);
    assert_eq!(r, Some(b));
    assert_eq!(layout.focused_pane, b);
    assert_eq!(session_of(&layout, b), Some("x"));
    assert!(layout.pane_count() >= 1);
    assert_eq!(layout.pane_for_session("x"), Some(b));
}

#[test]
fn hide_pane_moves_focus_and_closes() {
    let mut layout = WorkspaceLayout::new_single();
    let a = layout.focused_pane;
    let b = layout.split_pane(a, SplitAxis::Horizontal, Some("b".into()), 1).unwrap();
    layout.focused_pane = b;
    assert!(layout.hide_pane(b));
    assert_eq!(layout.pane_count(), 1);
    assert_eq!(layout.focused_pane, a);
    assert!(!layout.hide_pane(a));
}

#[test]
fn move_pane_to_edge_keeps_session() {
    let mut layout = WorkspaceLayout::new_single();
    let a = layout.focused_pane;
    layout.assign_session(a, Some("a".into()));
    let b = layout.split_pane(a, SplitAxis::Horizontal, Some("b".into()), 1).unwrap();
    let moved = layout.move_pane_to_edge(b, a, DropEdge::Top, 5).unwrap();
    assert_eq!(session_of(&layout, moved), Some("b"));
    assert_eq!(layout.pane_count(), 2);
    assert_eq!(layout.move_pane_to_edge(a, a, DropEdge::Top, 5), None);
}

#[test]
fn drop_edge_axes() {
    assert_eq!(DropEdge::Left.split_axis(), SplitAxis::Horizontal);
    assert_eq!(DropEdge::Right.split_axis(), SplitAxis::Horizontal);
    assert_eq!(DropEdge::Top.split_axis(), SplitAxis::Vertical);
    assert_eq!(DropEdge::Bottom.split_axis(), SplitAxis::Vertical);
    assert!(DropEdge::Left.new_pane_first());
    assert!(DropEdge::Top.new_pane_first());
    assert!(!DropEdge::Right.new_pane_first());
    assert!(!DropEdge::Bottom.new_pane_first());
}

#[test]
fn shell_layout_width_is_clamped() {
    assert_eq!(ShellLayout::default().function_width, FUNCTION_DEFAULT_WIDTH);
    assert_eq!(ShellLayout::from_settings(None).function_width, FUNCTION_DEFAULT_WIDTH);
    assert_eq!(ShellLayout::from_settings(Some(50)).function_width, FUNCTION_MIN_WIDTH);
    assert_eq!(ShellLayout::from_settings(Some(1000)).function_width, FUNCTION_MAX_WIDTH);
    assert_eq!(ShellLayout::from_settings(Some(300)).function_width, 300);
}

#[test]
fn collapse_to_single_keeps_focused_session() {
    let mut layout = WorkspaceLayout::new_single();
    let a = layout.focused_pane;
    layout.assign_session(a, Some("keep".into()));
    layout.split_pane(a, SplitAxis::Vertical, Some("drop".into()), 1).unwrap();
    layout.collapse_to_single();
    assert_eq!(layout.pane_count(), 1);
    assert_eq!(layout.focused_session_id(), Some("keep"));
    assert!(!layout.is_session_visible("drop"));
}

#[test]
fn checked_layout_accepts_matching_parts() {
    let root = SplitNode::Split {
        axis: SplitAxis::Horizontal,
        ratio: 500,
        first: Box::new(SplitNode::Leaf { pane_id: PaneId::new(1) }),
        second: Box::new(SplitNode::Leaf { pane_id: PaneId::new(2) }),
    };
    let panes = vec![
        (PaneId::new(2), PaneState { session_id: Some("b".into()), color_index: 1 }),
        (PaneId::new(1), PaneState { session_id: None, color_index: 0 }),
    ];
    let layout = WorkspaceLayout::checked(root.clone(), panes, PaneId::new(2)).expect("well formed");
    assert_eq!(layout.pane_count(), 2);
    assert_eq!(layout.focused_session_id(), Some("b"));
    let missing = vec![(PaneId::new(1), PaneState { session_id: None, color_index: 0 })];
    assert!(WorkspaceLayout::checked(root.clone(), missing, PaneId::new(1)).is_none());
    let twice = vec![
        (PaneId::new(1), PaneState { session_id: None, color_index: 0 }),
        (PaneId::new(1), PaneState { session_id: None, color_index: 0 }),
        (PaneId::new(2), PaneState { session_id: None, color_index: 0 }),
    ];
    assert!(WorkspaceLayout::checked(root, twice, PaneId::new(1)).is_none());
    let dup_leaf = SplitNode::Split {
        axis: SplitAxis::Vertical,
        ratio: 500,
        first: Box::new(SplitNode::Leaf { pane_id: PaneId::new(1) }),
        second: Box::new(SplitNode::Leaf { pane_id: PaneId::new(1) }),
    };
    let one = vec![(PaneId::new(1), PaneState { session_id: None, color_index: 0 })];
    assert!(WorkspaceLayout::checked(dup_leaf, one, PaneId::new(1)).is_none());
    assert!(WorkspaceLayout::checked(SplitNode::Leaf { pane_id: PaneId::new(1) }, vec![], PaneId::new(1)).is_none());
}

#[test]
fn set_split_ratio_clamps_on_a_split_holding_the_pane_twice() {
    let mut layout = WorkspaceLayout::new_single();
    let p = layout.focused_pane;
    layout.root = SplitNode::Split {
        axis: SplitAxis::Horizontal,
        ratio: 500,
        first: Box::new(SplitNode::Leaf { pane_id: p }),
        second: Box::new(SplitNode::Leaf { pane_id: p }),
    };
    layout.set_split_ratio(p, 990);
    match &layout.root {
        SplitNode::Split { ratio, .. } => assert_eq!(*ratio, 850),
        _ => panic!("the root stays a split"),
    }
    layout.set_split_ratio(p, 10);
    match &layout.root {
        SplitNode::Split { ratio, .. } => assert_eq!(*ratio, 150),
        _ => panic!("the root stays a split"),
    }
}

#[test]
fn closed_pane_id_is_not_drawn_again() {
    let mut layout = WorkspaceLayout::new_single();
    let first = layout.split_pane(PaneId::new(1), SplitAxis::Horizontal, None, 1).unwrap();
    assert_eq!(first, PaneId::new(2));
    assert!(layout.close_pane(first));
    let second = layout.split_pane(PaneId::new(1), SplitAxis::Horizontal, None, 1).unwrap();
    assert_eq!(second, PaneId::new(3));
    assert_eq!(layout.next_pane_id, 4);
}

#[test]
fn inserted_session_moves_out_of_its_old_pane() {
    let mut layout = WorkspaceLayout::new_single();
    let a = layout.focused_pane;
    layout.assign_session(a, Some("a".into()));
    let b = layout.split_pane(a, SplitAxis::Horizontal, Some("b".into()), 1).unwrap();
    let new = layout.insert_session_at_edge(a, DropEdge::Bottom, "b".into(), 2).unwrap();
    assert_ne!(new, b);
    assert_eq!(session_of(&layout, new), Some("b"));
    assert_eq!(session_of(&layout, a), Some("a"));
    assert!(layout.panes.get(&b).is_none());
    assert_eq!(layout.pane_count(), 2);
    assert!(layout.panes.get(&layout.focused_pane).is_some());
}
