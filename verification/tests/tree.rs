use ownrc::rc::RcHeap;
use ownrc::tree::append_child;
use ownrc::tree::new_node;
use ownrc::tree::parent_of;
use ownrc::tree::set_parent;

#[test]
fn tree_child_finds_parent_and_dies_with_it() {
    let mut heap = RcHeap::new();

    // A parent with no children, a child with no parent yet.
    let parent = new_node(&mut heap, 5);
    let leaf = new_node(&mut heap, 3);
    assert!(parent_of(&mut heap, &leaf).is_none());

    // Append the leaf as a strong child, and point it back at the
    // parent through a weak back-reference.
    let leaf_share = heap.clone_strong(&leaf);
    append_child(&mut heap, &parent, leaf_share);
    assert_eq!(heap.strong_count(&leaf), 2);

    let back_ref = heap.downgrade(&parent);
    assert!(set_parent(&mut heap, &leaf, back_ref).is_none());

    // Upgrading the back-reference yields a handle equal to the parent.
    let found = parent_of(&mut heap, &leaf);
    assert!(found.is_some());
    let found = found.unwrap();
    assert_eq!(found, parent);
    assert_eq!(heap.strong_count(&parent), 2);
    assert!(heap.drop_strong(found).is_none());

    // Give up our own handle on the leaf: it stays alive, reachable
    // only through the parent's child list.
    assert!(heap.drop_strong(leaf).is_none());

    // Dropping the parent's last strong handle releases its node; the
    // child handles it owned are dropped in turn, which releases the
    // leaf as well.
    let parent_node = heap.drop_strong(parent).expect("last drop releases the parent node");
    assert_eq!(parent_node.value, 5);
    let mut released_children: usize = 0;
    for child in parent_node.children {
        if let Some(child_node) = heap.drop_strong(child) {
            released_children = released_children + 1;
            assert_eq!(child_node.value, 3);
            // The released leaf still holds its dead back-reference;
            // upgrading it finds nothing, and dropping it frees the
            // parent's control block for good.
            let w = child_node.parent.expect("the leaf was linked to its parent");
            assert!(heap.upgrade(&w).is_none());
            heap.drop_weak(w);
        }
    }
    assert_eq!(released_children, 1);
}

#[test]
fn parent_link_survives_while_parent_lives() {
    let mut heap = RcHeap::new();
    let parent = new_node(&mut heap, 1);
    let child = new_node(&mut heap, 2);
    let back_ref = heap.downgrade(&parent);
    assert!(set_parent(&mut heap, &child, back_ref).is_none());

    let first = parent_of(&mut heap, &child).expect("parent is alive");
    let second = parent_of(&mut heap, &child).expect("parent is alive");
    assert_eq!(first, second);
    assert_eq!(heap.strong_count(&parent), 3);
    assert!(heap.drop_strong(first).is_none());
    assert!(heap.drop_strong(second).is_none());

    // Once the parent itself is gone, the link yields nothing.
    assert!(heap.drop_strong(parent).is_some());
    assert!(parent_of(&mut heap, &child).is_none());
    assert!(heap.drop_strong(child).is_some());
}
