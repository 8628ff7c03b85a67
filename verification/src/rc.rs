//! A reference-counted shared owner with weak back-references.
//!
//! Shared allocations live in an [`RcHeap`], one control block each: a
//! strong count, a weak count, and the payload. Strong handles
//! ([`StrongRef`]) keep the payload alive; cloning one increments the
//! strong count, dropping one decrements it, and the drop that takes the
//! count to zero releases the payload and hands it back to the caller —
//! exactly once — so that its destructor hook can run. Weak handles
//! ([`WeakRef`]) never keep the payload alive: they only count towards
//! the control block, and must be upgraded to a strong handle before the
//! payload can be reached; the upgrade finds nothing once the payload is
//! gone. A control block whose two counts are both zero is dead: no
//! handle can reach it again.
//!
//! Handles are move-only values: the only way to duplicate a strong
//! handle is [`RcHeap::clone_strong`], which adjusts the count, so the
//! strong count always equals the number of live strong handles.
//!
//! Strong-reference cycles are never collected; the intended way to
//! point back towards an owner is a weak back-reference.

use vstd::prelude::*;

verus! {

/// The model of one control block: the two counts and the payload,
/// which is present exactly while the strong count is positive.
pub ghost struct BlockModel<T> {
    pub strong: nat,
    pub weak: nat,
    pub payload: Option<T>,
}

/// A control block is well formed when it holds a payload exactly while
/// some strong handle is live.
pub open spec fn block_wf<T>(b: BlockModel<T>) -> bool {
    b.payload is Some <==> b.strong >= 1
}

/// The block a fresh allocation starts from: one strong handle, no weak
/// handles, the payload in place.
pub open spec fn fresh_block<T>(value: T) -> BlockModel<T> {
    BlockModel { strong: 1, weak: 0, payload: Some(value) }
}

/// The block after a strong handle is cloned.
pub open spec fn after_clone<T>(b: BlockModel<T>) -> BlockModel<T> {
    BlockModel { strong: (b.strong + 1) as nat, ..b }
}

/// The block after a strong handle is dropped: the last drop releases
/// the payload.
pub open spec fn after_drop_strong<T>(b: BlockModel<T>) -> BlockModel<T> {
    if b.strong <= 1 {
        BlockModel { strong: 0, payload: None, ..b }
    } else {
        BlockModel { strong: (b.strong - 1) as nat, ..b }
    }
}

/// The block after a weak back-reference is taken from a strong handle.
pub open spec fn after_downgrade<T>(b: BlockModel<T>) -> BlockModel<T> {
    BlockModel { weak: (b.weak + 1) as nat, ..b }
}

/// The block after a weak handle is dropped.
pub open spec fn after_drop_weak<T>(b: BlockModel<T>) -> BlockModel<T> {
    BlockModel { weak: (b.weak - 1) as nat, ..b }
}

/// The block after its payload is exchanged for `value`.
pub open spec fn after_replace<T>(b: BlockModel<T>, value: T) -> BlockModel<T> {
    BlockModel { payload: Some(value), ..b }
}

/// An upgrade yields a strong handle exactly while the payload is alive.
pub open spec fn upgrade_succeeds<T>(b: BlockModel<T>) -> bool {
    b.strong >= 1
}

/// A dead control block: no handle of either kind reaches it any more.
pub open spec fn block_dead<T>(b: BlockModel<T>) -> bool {
    b.strong == 0 && b.weak == 0
}

/// A strong, owning handle to one control block. Move-only: duplicating
/// it goes through [`RcHeap::clone_strong`].
#[derive(PartialEq, Eq, Structural, Debug)]
pub struct StrongRef {
    idx: usize,
}

impl StrongRef {
    /// Which control block the handle points at.
    pub closed spec fn id(&self) -> int {
        self.idx as int
    }
}

/// A weak, non-owning back-reference to one control block. It must be
/// upgraded before the payload can be reached.
#[derive(PartialEq, Eq, Structural, Debug)]
pub struct WeakRef {
    idx: usize,
}

impl WeakRef {
    /// Which control block the handle points at.
    pub closed spec fn id(&self) -> int {
        self.idx as int
    }
}

struct Block<T> {
    strong: usize,
    weak: usize,
    payload: Option<T>,
}

impl<T> Block<T> {
    spec fn model(&self) -> BlockModel<T> {
        BlockModel { strong: self.strong as nat, weak: self.weak as nat, payload: self.payload }
    }
}

/// The heap of shared allocations: one control block per allocation,
/// addressed by the handles it gave out. Slots are never reused, so a
/// handle's target never changes.
pub struct RcHeap<T> {
    blocks: Vec<Block<T>>,
}

impl<T> View for RcHeap<T> {
    type V = Seq<BlockModel<T>>;

    closed spec fn view(&self) -> Seq<BlockModel<T>> {
        self.blocks@.map_values(|b: Block<T>| b.model())
    }
}

impl<T> RcHeap<T> {
    /// Every control block of the heap is well formed.
    pub open spec fn wf(&self) -> bool {
        forall|i: int| 0 <= i < self@.len() ==> block_wf(#[trigger] self@[i])
    }

    /// `id` addresses a control block of this heap.
    pub open spec fn in_bounds(&self, id: int) -> bool {
        0 <= id < self@.len()
    }

    /// An empty heap.
    pub fn new() -> (heap: RcHeap<T>)
        ensures
            heap@ == Seq::<BlockModel<T>>::empty(),
            heap.wf(),
    {
        let heap = RcHeap { blocks: Vec::new() };
        proof {
            assert(heap@ =~= Seq::<BlockModel<T>>::empty());
        }
        heap
    }

    /// Allocates `value` in a fresh control block and returns its first
    /// strong handle.
    pub fn new_strong(&mut self, value: T) -> (h: StrongRef)
        requires
            old(self).wf(),
            old(self)@.len() < usize::MAX,
        ensures
            h.id() == old(self)@.len(),
            final(self)@ == old(self)@.push(fresh_block(value)),
            final(self).wf(),
    {
        let idx = self.blocks.len();
        self.blocks.push(Block { strong: 1, weak: 0, payload: Some(value) });
        proof {
            assert(self@ =~= old(self)@.push(fresh_block(value)));
        }
        StrongRef { idx }
    }

    /// How many control blocks the heap holds.
    pub fn block_count(&self) -> (n: usize)
        ensures
            n == self@.len(),
    {
        self.blocks.len()
    }

    /// The strong count of the handle's control block.
    pub fn strong_count(&self, h: &StrongRef) -> (n: usize)
        requires
            self.in_bounds(h.id()),
        ensures
            n == self@[h.id()].strong,
    {
        self.blocks[h.idx].strong
    }

    /// The weak count of the handle's control block.
    pub fn weak_count(&self, h: &StrongRef) -> (n: usize)
        requires
            self.in_bounds(h.id()),
        ensures
            n == self@[h.id()].weak,
    {
        self.blocks[h.idx].weak
    }

    /// Reads the payload through a strong handle, which always finds it
    /// alive.
    pub fn read(&self, h: &StrongRef) -> (r: &T)
        requires
            self.wf(),
            self.in_bounds(h.id()),
            self@[h.id()].strong >= 1,
        ensures
            self@[h.id()].payload == Some(*r),
    {
        match &self.blocks[h.idx].payload {
            Some(v) => v,
            None => vstd::pervasive::unreached(),
        }
    }

    /// Swaps the whole block at `idx` with `blk`.
    fn swap_block(&mut self, idx: usize, blk: &mut Block<T>)
        requires
            idx < old(self)@.len(),
        ensures
            final(self)@ == old(self)@.update(idx as int, old(blk).model()),
            final(blk).model() == old(self)@[idx as int],
    {
        vstd::pervasive::VecAdditionalExecFns::set_and_swap(&mut self.blocks, idx, blk);
        proof {
            assert(self@ =~= old(self)@.update(idx as int, old(blk).model()));
        }
    }

    /// Clones a strong handle: the count goes up by one and a second
    /// handle to the same block comes back.
    pub fn clone_strong(&mut self, h: &StrongRef) -> (h2: StrongRef)
        requires
            old(self).wf(),
            old(self).in_bounds(h.id()),
            old(self)@[h.id()].strong >= 1,
            old(self)@[h.id()].strong < usize::MAX,
        ensures
            h2.id() == h.id(),
            final(self)@ == old(self)@.update(h.id(), after_clone(old(self)@[h.id()])),
            final(self).wf(),
    {
        let mut blk = Block { strong: 0, weak: 0, payload: None };
        self.swap_block(h.idx, &mut blk);
        blk.strong = blk.strong + 1;
        self.swap_block(h.idx, &mut blk);
        proof {
            assert(self@ =~= old(self)@.update(h.id(), after_clone(old(self)@[h.id()])));
        }
        StrongRef { idx: h.idx }
    }

    /// Drops a strong handle. The drop that takes the strong count to
    /// zero releases the payload and returns it, exactly once, so the
    /// caller can run its destructor hook; every other drop returns
    /// nothing.
    pub fn drop_strong(&mut self, h: StrongRef) -> (released: Option<T>)
        requires
            old(self).wf(),
            old(self).in_bounds(h.id()),
            old(self)@[h.id()].strong >= 1,
        ensures
            final(self)@ == old(self)@.update(h.id(), after_drop_strong(old(self)@[h.id()])),
            released == (if old(self)@[h.id()].strong == 1 {
                old(self)@[h.id()].payload
            } else {
                None::<T>
            }),
            final(self).wf(),
    {
        let mut blk = Block { strong: 0, weak: 0, payload: None };
        self.swap_block(h.idx, &mut blk);
        let Block { strong, weak, payload } = blk;
        let mut released: Option<T> = None;
        let mut back = if strong <= 1 {
            released = payload;
            Block { strong: 0, weak, payload: None }
        } else {
            Block { strong: strong - 1, weak, payload }
        };
        self.swap_block(h.idx, &mut back);
        proof {
            assert(self@ =~= old(self)@.update(h.id(), after_drop_strong(old(self)@[h.id()])));
        }
        released
    }

    /// Exchanges the payload behind a strong handle for `value`,
    /// returning the previous payload; the counts are untouched. A
    /// strong handle alone grants only shared access, so in-place
    /// mutation goes through a cell carried as the payload, reached by
    /// this exchange.
    pub fn replace(&mut self, h: &StrongRef, value: T) -> (prev: T)
        requires
            old(self).wf(),
            old(self).in_bounds(h.id()),
            old(self)@[h.id()].strong >= 1,
        ensures
            Some(prev) == old(self)@[h.id()].payload,
            final(self)@ == old(self)@.update(h.id(), after_replace(old(self)@[h.id()], value)),
            final(self).wf(),
    {
        let mut blk = Block { strong: 0, weak: 0, payload: None };
        self.swap_block(h.idx, &mut blk);
        let Block { strong, weak, payload } = blk;
        let prev = match payload {
            Some(v) => v,
            None => vstd::pervasive::unreached(),
        };
        let mut back = Block { strong, weak, payload: Some(value) };
        self.swap_block(h.idx, &mut back);
        proof {
            assert(self@ =~= old(self)@.update(h.id(), after_replace(old(self)@[h.id()], value)));
        }
        prev
    }

    /// Takes a weak back-reference from a strong handle: only the weak
    /// count changes.
    pub fn downgrade(&mut self, h: &StrongRef) -> (w: WeakRef)
        requires
            old(self).wf(),
            old(self).in_bounds(h.id()),
            old(self)@[h.id()].weak < usize::MAX,
        ensures
            w.id() == h.id(),
            final(self)@ == old(self)@.update(h.id(), after_downgrade(old(self)@[h.id()])),
            final(self).wf(),
    {
        let mut blk = Block { strong: 0, weak: 0, payload: None };
        self.swap_block(h.idx, &mut blk);
        blk.weak = blk.weak + 1;
        self.swap_block(h.idx, &mut blk);
        proof {
            assert(self@ =~= old(self)@.update(h.id(), after_downgrade(old(self)@[h.id()])));
        }
        WeakRef { idx: h.idx }
    }

    /// Tries to turn a weak handle into a strong one. While the payload
    /// is alive this yields a fresh strong handle to the same block and
    /// raises the strong count; once the payload is gone it yields
    /// nothing and leaves the heap untouched.
    pub fn upgrade(&mut self, w: &WeakRef) -> (r: Option<StrongRef>)
        requires
            old(self).wf(),
            old(self).in_bounds(w.id()),
            old(self)@[w.id()].strong < usize::MAX,
        ensures
            upgrade_succeeds(old(self)@[w.id()]) ==> (r matches Some(h) && h.id() == w.id()),
            !upgrade_succeeds(old(self)@[w.id()]) ==> r is None,
            final(self)@ == (if upgrade_succeeds(old(self)@[w.id()]) {
                old(self)@.update(w.id(), after_clone(old(self)@[w.id()]))
            } else {
                old(self)@
            }),
            final(self).wf(),
    {
        if self.blocks[w.idx].strong >= 1 {
            let mut blk = Block { strong: 0, weak: 0, payload: None };
            self.swap_block(w.idx, &mut blk);
            blk.strong = blk.strong + 1;
            self.swap_block(w.idx, &mut blk);
            proof {
                assert(self@ =~= old(self)@.update(w.id(), after_clone(old(self)@[w.id()])));
            }
            Some(StrongRef { idx: w.idx })
        } else {
            None
        }
    }

    /// Drops a weak handle: only the weak count changes; a block whose
    /// two counts are now both zero is dead.
    pub fn drop_weak(&mut self, w: WeakRef)
        requires
            old(self).wf(),
            old(self).in_bounds(w.id()),
            old(self)@[w.id()].weak >= 1,
        ensures
            final(self)@ == old(self)@.update(w.id(), after_drop_weak(old(self)@[w.id()])),
            final(self).wf(),
    {
        let mut blk = Block { strong: 0, weak: 0, payload: None };
        self.swap_block(w.idx, &mut blk);
        blk.weak = blk.weak - 1;
        self.swap_block(w.idx, &mut blk);
        proof {
            assert(self@ =~= old(self)@.update(w.id(), after_drop_weak(old(self)@[w.id()])));
        }
    }
}

/// One step of a strong handle's life: it is either cloned or dropped.
pub enum RcOp {
    DoClone,
    DoDrop,
}

/// The control block after one clone or drop step.
pub open spec fn step<T>(b: BlockModel<T>, op: RcOp) -> BlockModel<T> {
    match op {
        RcOp::DoClone => after_clone(b),
        RcOp::DoDrop => after_drop_strong(b),
    }
}

/// The control block after a whole sequence of clone and drop steps.
pub open spec fn run<T>(b: BlockModel<T>, ops: Seq<RcOp>) -> BlockModel<T>
    decreases ops.len(),
{
    if ops.len() == 0 {
        b
    } else {
        step(run(b, ops.drop_last()), ops.last())
    }
}

/// Every step of the sequence happens while a strong handle is live —
/// each clone and each drop goes through such a handle.
pub open spec fn ops_ok<T>(b: BlockModel<T>, ops: Seq<RcOp>) -> bool
    decreases ops.len(),
{
    if ops.len() == 0 {
        true
    } else {
        ops_ok(b, ops.drop_last()) && run(b, ops.drop_last()).strong >= 1
    }
}

/// How many of the steps are clones.
pub open spec fn num_clones(ops: Seq<RcOp>) -> int
    decreases ops.len(),
{
    if ops.len() == 0 {
        0
    } else {
        num_clones(ops.drop_last()) + if ops.last() is DoClone {
            1int
        } else {
            0int
        }
    }
}

/// How many of the steps are drops.
pub open spec fn num_drops(ops: Seq<RcOp>) -> int
    decreases ops.len(),
{
    if ops.len() == 0 {
        0
    } else {
        num_drops(ops.drop_last()) + if ops.last() is DoDrop {
            1int
        } else {
            0int
        }
    }
}

/// After any sequence of clones and drops on a fresh allocation, each
/// performed while a strong handle is live, the strong count equals the
/// number of clones minus the number of drops plus one — and so never
/// goes negative.
pub proof fn lemma_strong_count_net<T>(value: T, ops: Seq<RcOp>)
    requires
        ops_ok(fresh_block(value), ops),
    ensures
        run(fresh_block(value), ops).strong == num_clones(ops) - num_drops(ops) + 1,
        num_clones(ops) - num_drops(ops) + 1 >= 0,
    decreases ops.len(),
{
    if ops.len() > 0 {
        lemma_strong_count_net(value, ops.drop_last());
    }
}

/// Dropping the last strong handle releases the payload for good: the
/// block keeps no payload to hand out again, and an upgrade through any
/// outstanding weak handle thereafter finds nothing and changes nothing.
pub proof fn lemma_last_drop_releases<T>(b: BlockModel<T>)
    requires
        block_wf(b),
        b.strong == 1,
    ensures
        after_drop_strong(b).strong == 0,
        after_drop_strong(b).payload is None,
        !upgrade_succeeds(after_drop_strong(b)),
        after_drop_strong(b).weak == 0 ==> block_dead(after_drop_strong(b)),
{
}

} // verus!
