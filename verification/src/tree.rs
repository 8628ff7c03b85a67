//! A parent/child tree built on the shared-ownership runtime.
//!
//! Each node lives in an [`RcHeap`] control block. A node owns its
//! children through strong handles, while it points back at its parent
//! only through a weak back-reference — that asymmetry is what keeps the
//! structure free of strong-reference cycles: a parent keeps its
//! children alive, a child never keeps its parent alive, yet any node
//! can still try to locate its parent by upgrading the back-reference.

use vstd::prelude::*;

use crate::rc::RcHeap;
use crate::rc::StrongRef;
use crate::rc::WeakRef;
use crate::rc::after_clone;
use crate::rc::upgrade_succeeds;

verus! {

/// One tree node: a value, strong handles to the children, and an
/// optional weak back-reference to the parent (absent for a root or a
/// node not yet linked in).
pub struct TreeNode {
    pub value: i32,
    pub children: Vec<StrongRef>,
    pub parent: Option<WeakRef>,
}

/// Creates a node with no children and no parent, owned by the returned
/// strong handle.
pub fn new_node(heap: &mut RcHeap<TreeNode>, value: i32) -> (h: StrongRef)
    requires
        old(heap).wf(),
        old(heap)@.len() < usize::MAX,
    ensures
        h.id() == old(heap)@.len(),
        final(heap)@.len() == old(heap)@.len() + 1,
        forall|j: int| 0 <= j < old(heap)@.len() ==> final(heap)@[j] == old(heap)@[j],
        final(heap)@[h.id()].strong == 1,
        final(heap)@[h.id()].weak == 0,
        final(heap)@[h.id()].payload matches Some(n) && n.value == value && n.children@
            == Seq::<StrongRef>::empty() && n.parent is None,
        final(heap).wf(),
{
    heap.new_strong(TreeNode { value, children: Vec::new(), parent: None })
}

/// Appends `child` to the parent's child list. The strong handle moves
/// into the node, so the child's strong count is untouched: the parent
/// now holds that share of the ownership.
pub fn append_child(heap: &mut RcHeap<TreeNode>, parent: &StrongRef, child: StrongRef)
    requires
        old(heap).wf(),
        old(heap).in_bounds(parent.id()),
        old(heap)@[parent.id()].strong >= 1,
    ensures
        final(heap)@.len() == old(heap)@.len(),
        forall|j: int| 0 <= j < old(heap)@.len() && j != parent.id() ==> final(heap)@[j]
            == old(heap)@[j],
        final(heap)@[parent.id()].strong == old(heap)@[parent.id()].strong,
        final(heap)@[parent.id()].weak == old(heap)@[parent.id()].weak,
        old(heap)@[parent.id()].payload matches Some(n1) && final(heap)@[parent.id()].payload
            matches Some(n2) && n2.value == n1.value && n2.parent == n1.parent && n2.children@
            == n1.children@.push(child),
        final(heap).wf(),
{
    let mut node = heap.replace(parent, TreeNode { value: 0, children: Vec::new(), parent: None });
    node.children.push(child);
    let _placeholder = heap.replace(parent, node);
}

/// Sets the node's weak back-reference to its parent, returning the
/// previous back-reference, if any, for the caller to drop.
pub fn set_parent(heap: &mut RcHeap<TreeNode>, child: &StrongRef, parent: WeakRef) -> (prev:
    Option<WeakRef>)
    requires
        old(heap).wf(),
        old(heap).in_bounds(child.id()),
        old(heap)@[child.id()].strong >= 1,
    ensures
        final(heap)@.len() == old(heap)@.len(),
        forall|j: int| 0 <= j < old(heap)@.len() && j != child.id() ==> final(heap)@[j]
            == old(heap)@[j],
        final(heap)@[child.id()].strong == old(heap)@[child.id()].strong,
        final(heap)@[child.id()].weak == old(heap)@[child.id()].weak,
        old(heap)@[child.id()].payload matches Some(n1) && final(heap)@[child.id()].payload
            matches Some(n2) && n2.value == n1.value && n2.children == n1.children && n2.parent
            == Some(parent) && prev == n1.parent,
        final(heap).wf(),
{
    let mut node = heap.replace(child, TreeNode { value: 0, children: Vec::new(), parent: None });
    let mut prev = Some(parent);
    core::mem::swap(&mut prev, &mut node.parent);
    let _placeholder = heap.replace(child, node);
    prev
}

/// Tries to locate the node's parent by upgrading its weak
/// back-reference: while the parent is alive this yields a strong handle
/// to it (raising its strong count by one); once the parent is gone, or
/// the node never had one, it yields nothing and the heap is untouched.
pub fn parent_of(heap: &mut RcHeap<TreeNode>, child: &StrongRef) -> (r: Option<StrongRef>)
    requires
        old(heap).wf(),
        old(heap).in_bounds(child.id()),
        old(heap)@[child.id()].strong >= 1,
        old(heap)@[child.id()].payload matches Some(n) && (n.parent matches Some(w)
            ==> old(heap).in_bounds(w.id()) && w.id() != child.id() && old(heap)@[w.id()].strong
            < usize::MAX),
    ensures
        old(heap)@[child.id()].payload matches Some(n) && match n.parent {
            None => r is None && final(heap)@ == old(heap)@,
            Some(w) => {
                &&& upgrade_succeeds(old(heap)@[w.id()]) ==> (r matches Some(p) && p.id() == w.id()
                    && final(heap)@ == old(heap)@.update(w.id(), after_clone(old(heap)@[w.id()])))
                &&& !upgrade_succeeds(old(heap)@[w.id()]) ==> r is None && final(heap)@
                    == old(heap)@
            },
        },
        final(heap).wf(),
{
    let node = heap.replace(child, TreeNode { value: 0, children: Vec::new(), parent: None });
    let r = match &node.parent {
        Some(w) => heap.upgrade(w),
        None => None,
    };
    let _placeholder = heap.replace(child, node);
    proof {
        let n = old(heap)@[child.id()].payload->Some_0;
        match n.parent {
            None => {
                assert(heap@ =~= old(heap)@);
            },
            Some(w) => {
                if upgrade_succeeds(old(heap)@[w.id()]) {
                    assert(heap@ =~= old(heap)@.update(
                        w.id(),
                        after_clone(old(heap)@[w.id()]),
                    ));
                } else {
                    assert(heap@ =~= old(heap)@);
                }
            },
        }
    }
    r
}

} // verus!
