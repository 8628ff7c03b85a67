//! Deterministic destructor hooks.
//!
//! A [`Hook`] is a cleanup action that must run exactly once, at the
//! moment its owner releases it. Firing a hook consumes it, so a second
//! invocation is ruled out statically; an early, explicit [`Hook::fire`]
//! is the force-drop. Each firing appends the hook's tag to a
//! [`TraceLog`], which makes release order observable.
//!
//! [`drop_scope`] is the scope-exit protocol: owners declared in order
//! are released in strictly reverse order, last first.

use vstd::prelude::*;

use crate::rc::RcHeap;
use crate::rc::StrongRef;
use crate::rc::after_drop_strong;

verus! {

/// The record of which hooks fired, in order.
pub struct TraceLog {
    events: Vec<u64>,
}

impl View for TraceLog {
    type V = Seq<u64>;

    closed spec fn view(&self) -> Seq<u64> {
        self.events@
    }
}

impl TraceLog {
    /// An empty record.
    pub fn new() -> (log: TraceLog)
        ensures
            log@ == Seq::<u64>::empty(),
    {
        let log = TraceLog { events: Vec::new() };
        proof {
            assert(log@ =~= Seq::<u64>::empty());
        }
        log
    }

    /// The tags of the hooks that fired, earliest first.
    pub fn events(&self) -> (r: &Vec<u64>)
        ensures
            r@ == self@,
    {
        &self.events
    }
}

/// A cleanup action, identified by a tag, that runs exactly once.
pub struct Hook {
    tag: u64,
}

impl Hook {
    /// The tag the hook reports when it fires.
    pub closed spec fn tag(&self) -> u64 {
        self.tag
    }

    /// Registers a cleanup action under `tag`.
    pub fn register(tag: u64) -> (h: Hook)
        ensures
            h.tag() == tag,
    {
        Hook { tag }
    }

    /// Runs the cleanup action, recording the tag. The hook is consumed,
    /// so it cannot fire a second time; called before its owner's scope
    /// ends, this is the explicit force-drop.
    pub fn fire(self, log: &mut TraceLog)
        requires
            old(log)@.len() < usize::MAX,
        ensures
            final(log)@ == old(log)@.push(self.tag()),
    {
        log.events.push(self.tag);
    }
}

/// The tags of a sequence of hooks, in the same order.
pub open spec fn tags_of(hooks: Seq<Hook>) -> Seq<u64> {
    hooks.map_values(|h: Hook| h.tag())
}

/// Releases a whole scope of owners: the hooks fire in strictly reverse
/// declaration order, so the trace gains the tags last-declared first.
pub fn drop_scope(hooks: Vec<Hook>, log: &mut TraceLog)
    requires
        old(log)@.len() + hooks@.len() < usize::MAX,
    ensures
        final(log)@ == old(log)@ + tags_of(hooks@).reverse(),
{
    let ghost orig = hooks@;
    let ghost log0 = log@;
    let mut hooks = hooks;
    loop
        invariant
            log0 == old(log)@,
            hooks@ == orig.take(hooks@.len() as int),
            log@ == log0 + tags_of(orig.skip(hooks@.len() as int)).reverse(),
            log0.len() + orig.len() < usize::MAX,
            hooks@.len() <= orig.len(),
        ensures
            log@ == log0 + tags_of(orig).reverse(),
        decreases hooks@.len(),
    {
        let ghost k = hooks@.len() as int;
        match hooks.pop() {
            Some(h) => {
                h.fire(log);
                proof {
                    assert(orig.skip(k - 1) =~= seq![orig[k - 1]] + orig.skip(k));
                    assert(log@ =~= log0 + tags_of(orig.skip(k - 1)).reverse());
                }
            },
            None => {
                proof {
                    assert(log@ =~= log0 + tags_of(orig).reverse());
                }
                break;
            },
        }
    }
}

/// Drops a strong handle into a heap of hooks: the drop that releases
/// the payload fires its hook at once, so the trace gains its tag; any
/// other drop leaves the trace untouched.
pub fn drop_strong_hooked(heap: &mut RcHeap<Hook>, h: StrongRef, log: &mut TraceLog)
    requires
        old(heap).wf(),
        old(heap).in_bounds(h.id()),
        old(heap)@[h.id()].strong >= 1,
        old(log)@.len() < usize::MAX,
    ensures
        final(heap)@ == old(heap)@.update(h.id(), after_drop_strong(old(heap)@[h.id()])),
        final(heap).wf(),
        old(heap)@[h.id()].strong == 1 ==> (old(heap)@[h.id()].payload matches Some(hk)
            && final(log)@ == old(log)@.push(hk.tag())),
        old(heap)@[h.id()].strong != 1 ==> final(log)@ == old(log)@,
{
    match heap.drop_strong(h) {
        Some(hk) => hk.fire(log),
        None => {},
    }
}

} // verus!
