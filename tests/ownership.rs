use ui_builder::hierarchy::UIHierarchy;

#[test]
fn new_index_holds_the_root_alone() {
    let h = UIHierarchy::new(7);
    assert_eq!(h.len(), 1);
    assert_eq!(h.find(7), Some(0));
    assert_eq!(h.find(8), None);
    assert_eq!(h.parent_of(7), None);
    assert_eq!(h.root_owner(), 7);
}

#[test]
fn registering_appends_below_the_parent() {
    let mut h = UIHierarchy::new(1);
    assert_eq!(h.register(2, 1), Some(1));
    assert_eq!(h.register(3, 2), Some(2));
    assert_eq!(h.len(), 3);
    assert_eq!(h.parent_of(2), Some(1));
    assert_eq!(h.parent_of(3), Some(2));
}

#[test]
fn registering_again_changes_nothing() {
    let mut h = UIHierarchy::new(1);
    assert_eq!(h.register(2, 1), Some(1));
    assert_eq!(h.register(2, 1), Some(1));
    assert_eq!(h.register(2, 5), Some(1));
    assert_eq!(h.len(), 2);
    assert_eq!(h.parent_of(2), Some(1));
    assert_eq!(h.find(5), None);
    // A later child of the same owner attaches to its one node.
    assert_eq!(h.register(4, 2), Some(2));
    assert_eq!(h.parent_of(4), Some(2));
}

#[test]
fn missing_parent_is_added_at_the_top_level() {
    let mut h = UIHierarchy::new(1);
    assert_eq!(h.register(3, 9), Some(2));
    assert_eq!(h.find(9), Some(1));
    assert_eq!(h.parent_of(9), None);
    assert_eq!(h.parent_of(3), Some(9));
}

#[test]
fn owner_that_is_its_own_parent_gets_one_node() {
    let mut h = UIHierarchy::new(1);
    assert_eq!(h.register(6, 6), Some(1));
    assert_eq!(h.len(), 2);
    assert_eq!(h.parent_of(6), None);
}
