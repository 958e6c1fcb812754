//! An object pool.
//!
//! The values managed by the pool are recycled in place: giving an object back
//! never destroys its value, so whatever state the value was left in is seen
//! again by the next `request`.

use vstd::prelude::*;
use crate::treiber::{Node, OwningNodePtr, Stack};

verus! {

/// An object pool: a stack of free slots, each holding a live value.
pub struct ObjectPool<T> {
    stack: Stack<T>,
    outstanding: Ghost<nat>,
}

impl<T> ObjectPool<T> {
    /// The values of the free slots, in stack order (most recently freed last).
    pub closed spec fn free(&self) -> Seq<T> {
        self.stack@
    }

    /// How many objects are checked out of this pool.
    pub closed spec fn outstanding(&self) -> nat {
        self.outstanding@
    }

    /// The capacity of the pool: at any time, the number of objects checked
    /// out plus the number of free slots.
    pub open spec fn capacity(&self) -> nat {
        self.free().len() + self.outstanding()
    }

    /// Creates a new, empty object pool.
    pub fn new() -> (r: Self)
        ensures
            r.free() == Seq::<T>::empty(),
            r.outstanding() == 0,
    {
        ObjectPool { stack: Stack::new(), outstanding: Ghost(0) }
    }

    /// Adds an un-managed object to the pool, growing its capacity by one.
    pub fn manage(&mut self, unmanaged: Unmanaged<T>)
        ensures
            final(self).free() == old(self).free().push(unmanaged.value()),
            final(self).outstanding() == old(self).outstanding(),
            final(self).capacity() == old(self).capacity() + 1,
    {
        self.stack.push(OwningNodePtr::new(unmanaged.into_node()));
    }

    /// Requests an object from the pool: the most recently freed value, if
    /// any slot is free.  The capacity is unchanged.
    pub fn request(&mut self) -> (r: Option<Object<T>>)
        ensures
            old(self).free().len() == 0 ==> r is None && final(self).free() == old(self).free()
                && final(self).outstanding() == old(self).outstanding(),
            old(self).free().len() > 0 ==> (r matches Some(object)
                && object.value() == old(self).free().last()
                && final(self).free() == old(self).free().drop_last()
                && final(self).outstanding() == old(self).outstanding() + 1
                && final(self).capacity() == old(self).capacity()),
    {
        match self.stack.pop() {
            Some(inner) => {
                proof {
                    self.outstanding@ = self.outstanding@ + 1;
                }
                Some(Object { inner })
            },
            None => None,
        }
    }

    /// Gives a checked-out object back to the pool without destroying its
    /// value.  The capacity is unchanged.
    pub fn recycle(&mut self, object: Object<T>)
        requires
            old(self).outstanding() >= 1,
        ensures
            final(self).free() == old(self).free().push(object.value()),
            final(self).outstanding() == (old(self).outstanding() - 1) as nat,
            final(self).capacity() == old(self).capacity(),
    {
        proof {
            self.outstanding@ = (self.outstanding@ - 1) as nat;
        }
        self.stack.push(object.inner);
    }
}

/// An un-managed object: a value in a slot that no pool links yet.
pub struct Unmanaged<T> {
    inner: Node<T>,
}

impl<T> Unmanaged<T> {
    /// The value held by the slot.
    pub closed spec fn value(self) -> T {
        self.inner.data
    }

    /// Creates an un-managed object around a value.
    pub fn new(data: T) -> (r: Self)
        ensures
            r.value() == data,
    {
        Unmanaged { inner: Node::new(data) }
    }

    fn into_node(self) -> (r: Node<T>)
        ensures
            r.data == self.value(),
    {
        self.inner
    }
}

/// An object checked out of a pool; it holds the slot until it is recycled.
pub struct Object<T> {
    inner: OwningNodePtr<T>,
}

impl<T> Object<T> {
    /// The value held by the object.
    pub closed spec fn value(self) -> T {
        self.inner.value()
    }

    /// Read access to the value.
    pub fn get(&self) -> (r: &T)
        ensures
            *r == self.value(),
    {
        self.inner.get()
    }

    /// Write access to the value; the new state is seen again after the
    /// object is recycled and requested anew.
    pub fn get_mut(&mut self) -> (r: &mut T)
        ensures
            *r == old(self).value(),
            final(self).value() == *final(r),
    {
        self.inner.get_mut()
    }
}

} // verus!
