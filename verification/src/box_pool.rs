//! A box pool.
//!
//! Slots are handed to the pool empty.  `request` moves a value into a free
//! slot and hands back a uniquely owning box; recycling the box destroys the
//! value and returns the emptied slot to the pool.

use vstd::prelude::*;
use crate::treiber::{Node, OwningNodePtr, Stack};

verus! {

/// A pool of boxes: a stack of empty slots.
pub struct BoxPool<T> {
    stack: Stack<Option<T>>,
    outstanding: Ghost<nat>,
}

impl<T> BoxPool<T> {
    /// Every free slot of a well-formed pool is empty.
    pub closed spec fn wf(&self) -> bool {
        forall|i: int| 0 <= i < self.stack@.len() ==> self.stack@[i] is None
    }

    /// How many slots are free.
    pub closed spec fn free(&self) -> nat {
        self.stack@.len()
    }

    /// How many boxes are checked out of this pool.
    pub closed spec fn outstanding(&self) -> nat {
        self.outstanding@
    }

    /// The capacity of the pool: at any time, the number of boxes checked out
    /// plus the number of free slots.
    pub open spec fn capacity(&self) -> nat {
        self.free() + self.outstanding()
    }

    /// Creates a new, empty box pool.
    pub fn new() -> (r: Self)
        ensures
            r.wf(),
            r.free() == 0,
            r.outstanding() == 0,
    {
        BoxPool { stack: Stack::new(), outstanding: Ghost(0) }
    }

    /// Requests a slot from the pool and moves `value` into it.  With no free
    /// slot, the value comes back unchanged.  The capacity is unchanged.
    pub fn request(&mut self, value: T) -> (r: Result<Box<T>, T>)
        requires
            old(self).wf(),
        ensures
            final(self).wf(),
            old(self).free() == 0 ==> r == Err::<Box<T>, T>(value)
                && final(self).free() == old(self).free()
                && final(self).outstanding() == old(self).outstanding(),
            old(self).free() > 0 ==> (r matches Ok(b) && b.wf() && b.value() == value
                && final(self).free() == (old(self).free() - 1) as nat
                && final(self).outstanding() == old(self).outstanding() + 1
                && final(self).capacity() == old(self).capacity()),
    {
        match self.stack.pop() {
            Some(mut slot) => {
                *slot.get_mut() = Some(value);
                proof {
                    self.outstanding@ = self.outstanding@ + 1;
                }
                Ok(Box { inner: slot })
            },
            None => Err(value),
        }
    }

    /// Gives an empty slot to the pool, growing its capacity by one.
    pub fn manage(&mut self, slot: Slot<T>)
        requires
            old(self).wf(),
            slot.is_empty(),
        ensures
            final(self).wf(),
            final(self).free() == old(self).free() + 1,
            final(self).outstanding() == old(self).outstanding(),
            final(self).capacity() == old(self).capacity() + 1,
    {
        self.stack.push(OwningNodePtr::new(slot.into_node()));
    }

    /// Takes a box back, destroys its value, and returns the emptied slot to
    /// the pool.  The capacity is unchanged.
    pub fn recycle(&mut self, boxed: Box<T>)
        requires
            old(self).wf(),
            boxed.wf(),
            old(self).outstanding() >= 1,
        ensures
            final(self).wf(),
            final(self).free() == old(self).free() + 1,
            final(self).outstanding() == (old(self).outstanding() - 1) as nat,
            final(self).capacity() == old(self).capacity(),
    {
        let mut inner = boxed.inner;
        let value = inner.get_mut().take();
        proof {
            self.outstanding@ = (self.outstanding@ - 1) as nat;
        }
        self.stack.push(inner);
    }
}

/// An un-managed memory slot; it must be placed in a pool before use.
pub struct Slot<T> {
    inner: Node<Option<T>>,
}

impl<T> Slot<T> {
    /// A slot that no pool manages holds no value.
    pub closed spec fn is_empty(&self) -> bool {
        self.inner.data is None
    }

    /// Creates an empty, un-managed memory slot.
    pub fn new() -> (r: Self)
        ensures
            r.is_empty(),
    {
        Slot { inner: Node::new(None) }
    }

    fn into_node(self) -> (r: Node<Option<T>>)
        ensures
            r == self.inner,
    {
        self.inner
    }
}

/// A uniquely owned value in a slot checked out of a `BoxPool`.
#[derive(Debug, PartialEq)]
pub struct Box<T> {
    inner: OwningNodePtr<Option<T>>,
}

impl<T> Box<T> {
    /// A live box always holds a value.
    pub closed spec fn wf(&self) -> bool {
        self.inner.value() is Some
    }

    /// The value held by the box.
    pub closed spec fn value(&self) -> T {
        self.inner.value()->Some_0
    }

    /// Read access to the value.
    pub fn get(&self) -> (r: &T)
        requires
            self.wf(),
        ensures
            *r == self.value(),
    {
        match self.inner.get() {
            Some(v) => v,
            None => unreached(),
        }
    }

    /// Write access to the value.
    pub fn get_mut(&mut self) -> (r: &mut T)
        requires
            old(self).wf(),
        ensures
            *r == old(self).value(),
            final(self).wf(),
            final(self).value() == *final(r),
    {
        match self.inner.get_mut() {
            Some(v) => v,
            None => unreached(),
        }
    }
}

} // verus!
