use motif::accessibility::{AccessId, AccessNode, AccessRole, AccessTree, FocusManager};
use motif::geometry::{Point, Rect, Size};

#[test]
fn access_node_basic_properties() {
    let node: AccessNode<f32> =
        AccessNode::new(AccessId(1), AccessRole::Button, "Submit".to_string());

    assert_eq!(node.id, AccessId(1));
    assert_eq!(node.role, AccessRole::Button);
    assert_eq!(node.name, "Submit");
}

#[test]
fn access_node_with_bounds() {
    let bounds = Rect::new(Point::new(10.0, 20.0), Size::new(100.0, 50.0));
    let node = AccessNode::new(AccessId(1), AccessRole::Button, "Click me".to_string())
        .with_bounds(bounds);

    assert_eq!(node.bounds, Some(bounds));
}

#[test]
fn access_node_with_children() {
    let parent: AccessNode<f32> =
        AccessNode::new(AccessId(1), AccessRole::Group, "Container".to_string())
            .with_child(AccessId(2))
            .with_child(AccessId(3));

    assert_eq!(parent.children, vec![AccessId(2), AccessId(3)]);
}

#[test]
fn access_tree_new_has_root() {
    let tree: AccessTree<f32> = AccessTree::new(AccessId(1));
    assert_eq!(tree.root_id(), AccessId(1));
}

#[test]
fn access_tree_push_and_get_nodes() {
    let mut tree: AccessTree<f32> = AccessTree::new(AccessId(1));
    tree.push(AccessNode::new(AccessId(1), AccessRole::Window, "App".to_string()));
    tree.push(AccessNode::new(AccessId(2), AccessRole::Button, "OK".to_string()));

    assert_eq!(tree.node_count(), 2);
    assert_eq!(tree.get(AccessId(2)).map(|n| n.name.as_str()), Some("OK"));
}

#[test]
fn access_tree_clear_resets() {
    let mut tree: AccessTree<f32> = AccessTree::new(AccessId(1));
    tree.push(AccessNode::new(AccessId(1), AccessRole::Window, "App".to_string()));
    tree.push(AccessNode::new(AccessId(2), AccessRole::Button, "OK".to_string()));

    tree.clear();

    assert_eq!(tree.node_count(), 0);
}

#[test]
fn access_tree_push_replaces_node_with_same_id() {
    let mut tree: AccessTree<f32> = AccessTree::new(AccessId(7));
    tree.push(AccessNode::new(AccessId(2), AccessRole::Button, "OK".to_string()));
    tree.push(AccessNode::new(AccessId(2), AccessRole::Label, "Cancel".to_string()));

    assert_eq!(tree.node_count(), 1);
    let node = tree.get(AccessId(2)).expect("node 2");
    assert_eq!(node.role, AccessRole::Label);
    assert_eq!(node.name, "Cancel");
    assert!(tree.get(AccessId(3)).is_none());
    tree.clear();
    assert_eq!(tree.root_id(), AccessId(7));
    assert!(tree.get(AccessId(2)).is_none());
}

#[test]
fn focus_manager_starts_with_no_focus() {
    let fm = FocusManager::new();
    assert!(fm.focused().is_none());
}

#[test]
fn focus_manager_set_and_get_focus() {
    let mut fm = FocusManager::new();
    fm.set_focus(AccessId(5));
    assert_eq!(fm.focused(), Some(AccessId(5)));
}

#[test]
fn focus_manager_clear_focus() {
    let mut fm = FocusManager::new();
    fm.set_focus(AccessId(5));
    fm.clear_focus();
    assert!(fm.focused().is_none());
}

#[test]
fn focus_manager_focus_next_cycles() {
    let mut fm = FocusManager::new();
    fm.set_focus_order(vec![AccessId(1), AccessId(2), AccessId(3)]);
    fm.set_focus(AccessId(1));

    fm.focus_next();
    assert_eq!(fm.focused(), Some(AccessId(2)));

    fm.focus_next();
    assert_eq!(fm.focused(), Some(AccessId(3)));

    fm.focus_next(); // wrap around
    assert_eq!(fm.focused(), Some(AccessId(1)));
}

#[test]
fn focus_manager_focus_prev_cycles() {
    let mut fm = FocusManager::new();
    fm.set_focus_order(vec![AccessId(1), AccessId(2), AccessId(3)]);
    fm.set_focus(AccessId(1));

    fm.focus_prev(); // wrap around backwards
    assert_eq!(fm.focused(), Some(AccessId(3)));

    fm.focus_prev();
    assert_eq!(fm.focused(), Some(AccessId(2)));
}

#[test]
fn focus_moves_to_an_end_when_nothing_in_the_order_is_focused() {
    let mut fm = FocusManager::default();
    fm.set_focus_order(vec![AccessId(4), AccessId(5), AccessId(6)]);

    fm.focus_next();
    assert_eq!(fm.focused(), Some(AccessId(4)));

    fm.clear_focus();
    fm.focus_prev();
    assert_eq!(fm.focused(), Some(AccessId(6)));

    // A focused element that is not part of the order counts as no focus.
    fm.set_focus(AccessId(99));
    fm.focus_next();
    assert_eq!(fm.focused(), Some(AccessId(4)));
    fm.set_focus(AccessId(99));
    fm.focus_prev();
    assert_eq!(fm.focused(), Some(AccessId(6)));
}

#[test]
fn focus_does_not_move_over_an_empty_order() {
    let mut fm = FocusManager::new();
    fm.focus_next();
    assert_eq!(fm.focused(), None);
    fm.set_focus(AccessId(3));
    fm.focus_next();
    assert_eq!(fm.focused(), Some(AccessId(3)));
    fm.focus_prev();
    assert_eq!(fm.focused(), Some(AccessId(3)));
}

#[test]
fn focus_uses_the_first_occurrence_of_a_repeated_element() {
    let mut fm = FocusManager::new();
    fm.set_focus_order(vec![AccessId(1), AccessId(2), AccessId(1), AccessId(3)]);
    fm.set_focus(AccessId(1));
    fm.focus_next();
    assert_eq!(fm.focused(), Some(AccessId(2)));
    fm.set_focus(AccessId(1));
    fm.focus_prev();
    assert_eq!(fm.focused(), Some(AccessId(3)));
}

#[test]
fn access_tree_lists_every_id_once() {
    let mut tree: AccessTree<f32> = AccessTree::new(AccessId(1));
    assert!(tree.ids().is_empty());
    for id in [5u64, 1, 9, 5, 3] {
        tree.push(AccessNode::new(AccessId(id), AccessRole::Group, format!("node {id}")));
    }
    let mut ids: Vec<u64> = tree.ids().into_iter().map(|id| id.0).collect();
    ids.sort();
    assert_eq!(ids, vec![1, 3, 5, 9]);
    assert_eq!(tree.node_count(), 4);
}
