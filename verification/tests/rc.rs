use ownrc::rc::RcHeap;

#[test]
fn end_to_end_strong_counts() {
    let mut heap = RcHeap::new();
    let a = heap.new_strong(String::from("payload"));
    assert_eq!(heap.strong_count(&a), 1);

    let b = heap.clone_strong(&a);
    assert_eq!(heap.strong_count(&a), 2);

    {
        let c = heap.clone_strong(&a);
        assert_eq!(heap.strong_count(&a), 3);
        assert!(heap.drop_strong(c).is_none());
    }
    assert_eq!(heap.strong_count(&a), 2);

    assert!(heap.drop_strong(b).is_none());
    assert_eq!(heap.strong_count(&a), 1);

    let released = heap.drop_strong(a);
    assert_eq!(released, Some(String::from("payload")));
}

#[test]
fn strong_count_is_clones_minus_drops_plus_one() {
    let mut heap = RcHeap::new();
    let a = heap.new_strong(0u64);
    let b = heap.clone_strong(&a);
    let c = heap.clone_strong(&b);
    let d = heap.clone_strong(&a);
    assert!(heap.drop_strong(b).is_none());
    assert!(heap.drop_strong(c).is_none());
    let e = heap.clone_strong(&d);
    // 4 clones, 2 drops: the count is 4 - 2 + 1.
    assert_eq!(heap.strong_count(&a), 3);
    assert!(heap.drop_strong(d).is_none());
    assert!(heap.drop_strong(e).is_none());
    assert!(heap.drop_strong(a).is_some());
}

#[test]
fn last_drop_releases_exactly_once_and_kills_weak_handles() {
    let mut heap = RcHeap::new();
    let a = heap.new_strong(42);
    let w = heap.downgrade(&a);
    assert_eq!(heap.weak_count(&a), 1);

    let upgraded = heap.upgrade(&w);
    assert!(upgraded.is_some());
    let u = upgraded.unwrap();
    assert_eq!(heap.strong_count(&a), 2);

    assert!(heap.drop_strong(u).is_none());
    let released = heap.drop_strong(a);
    // The payload comes back exactly at the last strong drop.
    assert_eq!(released, Some(42));

    // Any outstanding weak handle now upgrades to nothing.
    assert!(heap.upgrade(&w).is_none());
    assert!(heap.upgrade(&w).is_none());
    heap.drop_weak(w);
}

#[test]
fn weak_handles_do_not_keep_the_payload_alive() {
    let mut heap = RcHeap::new();
    let a = heap.new_strong(String::from("leafy"));
    let w1 = heap.downgrade(&a);
    let w2 = heap.downgrade(&a);
    assert_eq!(heap.weak_count(&a), 2);
    assert_eq!(heap.strong_count(&a), 1);

    let released = heap.drop_strong(a);
    assert_eq!(released, Some(String::from("leafy")));
    assert!(heap.upgrade(&w1).is_none());
    heap.drop_weak(w1);
    assert!(heap.upgrade(&w2).is_none());
    heap.drop_weak(w2);
}

#[test]
fn reading_and_replacing_the_payload() {
    let mut heap = RcHeap::new();
    let a = heap.new_strong(10);
    let b = heap.clone_strong(&a);
    assert_eq!(*heap.read(&a), 10);

    // Mutation through a shared owner goes by exchanging the payload;
    // every other handle sees the new value.
    let prev = heap.replace(&a, 20);
    assert_eq!(prev, 10);
    assert_eq!(*heap.read(&b), 20);

    assert!(heap.drop_strong(b).is_none());
    assert_eq!(heap.drop_strong(a), Some(20));
}

#[test]
fn shared_list_tails_raise_the_tail_count() {
    // Cons cells whose tails share one allocation: building two lists
    // onto the same tail leaves the tail with one strong handle per
    // list, plus the original.
    let mut heap = RcHeap::new();
    let tail = heap.new_strong(vec![5, 10]);
    let for_b = heap.clone_strong(&tail);
    let for_c = heap.clone_strong(&tail);
    assert_eq!(heap.strong_count(&tail), 3);
    assert_eq!(*heap.read(&for_b), vec![5, 10]);
    assert!(heap.drop_strong(for_b).is_none());
    assert!(heap.drop_strong(for_c).is_none());
    assert_eq!(heap.strong_count(&tail), 1);
    assert!(heap.drop_strong(tail).is_some());
}
