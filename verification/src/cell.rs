//! A runtime-checked interior-mutability cell.
//!
//! The cell owns one value together with a borrow-state tag. At any
//! moment it is either unshared, shared by some number of read-only
//! borrows, or claimed by a single exclusive borrow. Requesting a borrow
//! that would alias mutable state is a contract violation: the checked
//! entry points (`borrow`, `borrow_mut`) rule such requests out by
//! precondition, and the total entry points (`try_borrow`,
//! `try_borrow_mut`) report them as a failed request that leaves the cell
//! untouched.
//!
//! Borrow claims are scoped: a caller pairs every grant with its release
//! (`release_shared`, `release_exclusive`) on every path out of the
//! borrowing scope, and releasing the last outstanding claim returns the
//! cell to the unshared state, ready for an exclusive borrow again.

use vstd::prelude::*;

verus! {

/// The borrow state of a cell: unshared, shared `count` times, or
/// exclusively claimed.
#[derive(PartialEq, Eq, Structural, Clone, Copy, Debug)]
pub enum BorrowState {
    Unshared,
    Shared { count: usize },
    Exclusive,
}

/// A shared borrow may be granted unless an exclusive borrow is out.
pub open spec fn can_borrow(s: BorrowState) -> bool {
    !(s is Exclusive)
}

/// An exclusive borrow may be granted only when nothing is borrowed.
pub open spec fn can_borrow_mut(s: BorrowState) -> bool {
    s is Unshared
}

/// The state after one more shared borrow is granted.
pub open spec fn after_borrow(s: BorrowState) -> BorrowState {
    match s {
        BorrowState::Unshared => BorrowState::Shared { count: 1 },
        BorrowState::Shared { count } => BorrowState::Shared { count: (count + 1) as usize },
        BorrowState::Exclusive => BorrowState::Exclusive,
    }
}

/// The state after one outstanding borrow is released.
pub open spec fn after_release(s: BorrowState) -> BorrowState {
    match s {
        BorrowState::Unshared => BorrowState::Unshared,
        BorrowState::Shared { count } => if count <= 1 {
            BorrowState::Unshared
        } else {
            BorrowState::Shared { count: (count - 1) as usize }
        },
        BorrowState::Exclusive => BorrowState::Unshared,
    }
}

/// How many shared borrows are out in state `s`.
pub open spec fn shared_count(s: BorrowState) -> usize {
    match s {
        BorrowState::Shared { count } => count,
        _ => 0,
    }
}

/// A value with runtime-checked borrow discipline.
pub struct BorrowCell<T> {
    state: BorrowState,
    value: T,
}

impl<T> BorrowCell<T> {
    /// The current borrow state.
    pub closed spec fn state(&self) -> BorrowState {
        self.state
    }

    /// The value the cell owns.
    pub closed spec fn value(&self) -> T {
        self.value
    }

    /// A shared state always records at least one borrow.
    pub open spec fn wf(&self) -> bool {
        self.state() matches BorrowState::Shared { count } ==> count >= 1
    }

    /// A fresh, unshared cell around `value`.
    pub fn new(value: T) -> (cell: BorrowCell<T>)
        ensures
            cell.state() == BorrowState::Unshared,
            cell.value() == value,
            cell.wf(),
    {
        BorrowCell { state: BorrowState::Unshared, value }
    }

    /// Requests a shared borrow; on failure the cell is untouched.
    pub fn try_borrow(&mut self) -> (granted: bool)
        requires
            old(self).wf(),
            shared_count(old(self).state()) < usize::MAX,
        ensures
            granted == can_borrow(old(self).state()),
            final(self).state() == (if granted {
                after_borrow(old(self).state())
            } else {
                old(self).state()
            }),
            final(self).value() == old(self).value(),
            final(self).wf(),
    {
        match self.state {
            BorrowState::Unshared => {
                self.state = BorrowState::Shared { count: 1 };
                true
            },
            BorrowState::Shared { count } => {
                self.state = BorrowState::Shared { count: count + 1 };
                true
            },
            BorrowState::Exclusive => false,
        }
    }

    /// Requests an exclusive borrow; on failure the cell is untouched.
    pub fn try_borrow_mut(&mut self) -> (granted: bool)
        requires
            old(self).wf(),
        ensures
            granted == can_borrow_mut(old(self).state()),
            final(self).state() == (if granted {
                BorrowState::Exclusive
            } else {
                old(self).state()
            }),
            final(self).value() == old(self).value(),
            final(self).wf(),
    {
        match self.state {
            BorrowState::Unshared => {
                self.state = BorrowState::Exclusive;
                true
            },
            _ => false,
        }
    }

    /// Takes a shared borrow; aliasing an exclusive borrow is ruled out.
    pub fn borrow(&mut self)
        requires
            old(self).wf(),
            can_borrow(old(self).state()),
            shared_count(old(self).state()) < usize::MAX,
        ensures
            final(self).state() == after_borrow(old(self).state()),
            final(self).value() == old(self).value(),
            final(self).wf(),
    {
        let granted = self.try_borrow();
    }

    /// Takes the exclusive borrow; any outstanding borrow is ruled out.
    pub fn borrow_mut(&mut self)
        requires
            old(self).wf(),
            can_borrow_mut(old(self).state()),
        ensures
            final(self).state() == BorrowState::Exclusive,
            final(self).value() == old(self).value(),
            final(self).wf(),
    {
        let granted = self.try_borrow_mut();
    }

    /// Releases one shared borrow; the last release returns the cell to
    /// the unshared state.
    pub fn release_shared(&mut self)
        requires
            old(self).wf(),
            old(self).state() matches BorrowState::Shared { .. },
        ensures
            final(self).state() == after_release(old(self).state()),
            final(self).value() == old(self).value(),
            final(self).wf(),
    {
        match self.state {
            BorrowState::Shared { count } => {
                if count <= 1 {
                    self.state = BorrowState::Unshared;
                } else {
                    self.state = BorrowState::Shared { count: count - 1 };
                }
            },
            _ => {},
        }
    }

    /// Releases the exclusive borrow, returning the cell to unshared.
    pub fn release_exclusive(&mut self)
        requires
            old(self).wf(),
            old(self).state() is Exclusive,
        ensures
            final(self).state() == BorrowState::Unshared,
            final(self).value() == old(self).value(),
            final(self).wf(),
    {
        self.state = BorrowState::Unshared;
    }

    /// The current borrow-state tag, for inspection.
    pub fn state_tag(&self) -> (s: BorrowState)
        ensures
            s == self.state(),
    {
        self.state
    }

    /// Reads the value through an outstanding shared borrow.
    pub fn read(&self) -> (r: &T)
        requires
            self.state() matches BorrowState::Shared { .. },
        ensures
            *r == self.value(),
    {
        &self.value
    }

    /// Replaces the value through the outstanding exclusive borrow,
    /// returning the previous value.
    pub fn set(&mut self, value: T) -> (prev: T)
        requires
            old(self).state() is Exclusive,
        ensures
            prev == old(self).value(),
            final(self).value() == value,
            final(self).state() == old(self).state(),
            final(self).wf(),
    {
        let mut prev = value;
        core::mem::swap(&mut prev, &mut self.value);
        prev
    }
}

/// Incompatible borrows exclude one another, while shared borrows stack:
/// no exclusive borrow is granted while any borrow is out, no borrow is
/// granted while an exclusive borrow is out, and a state that admits a
/// shared borrow still admits another one after it.
pub proof fn lemma_borrow_exclusion(s: BorrowState)
    ensures
        s matches BorrowState::Shared { .. } ==> !can_borrow_mut(s),
        s is Exclusive ==> !can_borrow(s) && !can_borrow_mut(s),
        can_borrow(s) ==> can_borrow(after_borrow(s)),
{
}

/// Releasing the last outstanding borrow restores a state that admits an
/// exclusive borrow.
pub proof fn lemma_release_enables_exclusive(s: BorrowState)
    requires
        s is Exclusive || (s matches BorrowState::Shared { count } && count == 1),
    ensures
        can_borrow_mut(after_release(s)),
{
}

} // verus!
