//! The exclusive box and the transparent pointer wrapper.
//!
//! [`allocate`] places a value behind the sole owning handle of a heap
//! allocation; the handle is move-only, so at most one owner is live at
//! a time, and [`release`] is its single, deterministic release point,
//! handing the payload back so a destructor hook can run.
//!
//! [`MyBox`] stores its value inline and exposes the same dereference
//! capability, showing that pointer-like access is an implementable
//! capability rather than an intrinsic pointer property. Wrappers nest:
//! [`MyBox::deref_innermost`] reaches through two layers in one call.

use vstd::prelude::*;

verus! {

/// Places `value` on the heap and returns the sole owning handle.
pub fn allocate<T>(value: T) -> (b: Box<T>)
    ensures
        *b == value,
{
    Box::new(value)
}

/// Borrowed access to a boxed value, without transferring ownership.
pub fn read_box<T>(b: &Box<T>) -> (r: &T)
    ensures
        *r == **b,
{
    &**b
}

/// Mutable borrowed access to a boxed value: only the bound owner can
/// reach it, so the exclusive access is never aliased.
pub fn write_box<T>(b: &mut Box<T>) -> (r: &mut T)
    ensures
        *r == **old(b),
        **final(b) == *final(r),
{
    &mut **b
}

/// Consumes the owning handle and hands the payload back: the single
/// release point of the allocation.
pub fn release<T>(b: Box<T>) -> (value: T)
    ensures
        value == *b,
{
    *b
}

/// A transparent single-field wrapper with pointer-like access.
pub struct MyBox<T>(T);

impl<T> MyBox<T> {
    /// The wrapped value.
    pub closed spec fn inner(&self) -> T {
        self.0
    }

    /// Wraps `x`, storing it inline.
    pub fn new(x: T) -> (b: MyBox<T>)
        ensures
            b.inner() == x,
    {
        MyBox(x)
    }

    /// The dereference capability: a borrow of the wrapped value.
    pub fn deref(&self) -> (r: &T)
        ensures
            *r == self.inner(),
    {
        &self.0
    }

    /// Consumes the wrapper and returns the wrapped value.
    pub fn unwrap(self) -> (x: T)
        ensures
            x == self.inner(),
    {
        self.0
    }
}

impl<T> MyBox<MyBox<T>> {
    /// Chained dereference: a caller that needs the innermost value of a
    /// doubly wrapped one is satisfied by applying the dereference
    /// capability of each layer in sequence, with no unwrapping calls.
    pub fn deref_innermost(&self) -> (r: &T)
        ensures
            *r == self.inner().inner(),
    {
        self.deref().deref()
    }
}

} // verus!
