//! A contiguous growable array type with fixed capacity backed by a byte
//! buffer.
//!
//! The buffer's length, the address it happens to live at, and the element
//! type's layout fix how many elements fit: leading bytes are given up until
//! the first aligned position, and the rest is divided into element slots.

use vstd::prelude::*;
use vstd::layout::{align_of, size_of};

verus! {

/// How many elements of the given size and alignment fit in a buffer of
/// `len` bytes starting at address `addr`.
pub open spec fn spec_capacity(addr: int, len: int, size: int, align: int) -> int
    recommends
        size > 0,
        align > 0,
{
    let offset = addr % align;
    let adj = if offset == 0 {
        0
    } else {
        align - offset
    };
    if len < adj {
        0
    } else {
        (len - adj) / size
    }
}

/// Computes how many elements of the given size and alignment fit in a
/// buffer of `len` bytes starting at address `addr`.
pub fn capacity_for(addr: usize, len: usize, size: usize, align: usize) -> (r: usize)
    requires
        size > 0,
        align > 0,
    ensures
        r == spec_capacity(addr as int, len as int, size as int, align as int),
{
    let offset = addr % align;
    let adj = if offset == 0 {
        0
    } else {
        align - offset
    };
    if len < adj {
        0
    } else {
        (len - adj) / size
    }
}

/// Relies on `<[u8]>::as_ptr` for the address of the buffer's first byte.
/// Nothing is promised of the result: the allocator chose the address.
#[verifier::external_body]
fn buffer_addr(storage: &std::vec::Vec<u8>) -> usize {
    storage.as_ptr() as usize
}

/// A growable array over a caller-provided byte buffer; its capacity is
/// fixed by the buffer's length, address and the element layout.
pub struct Vec<T> {
    storage: std::vec::Vec<u8>,
    addr: usize,
    cap: usize,
    items: std::vec::Vec<T>,
}

impl<T> View for Vec<T> {
    type V = Seq<T>;

    closed spec fn view(&self) -> Seq<T> {
        self.items@
    }
}

impl<T> Vec<T> {
    /// The address the backing buffer lives at.
    pub closed spec fn spec_addr(&self) -> usize {
        self.addr
    }

    /// How many bytes the backing buffer holds.
    pub closed spec fn storage_len(&self) -> nat {
        self.storage@.len()
    }

    /// The total number of elements the vector can hold.
    pub closed spec fn spec_capacity_of(&self) -> usize {
        self.cap
    }

    /// The capacity follows from the buffer and the element layout, and the
    /// length never passes it.
    pub closed spec fn wf(&self) -> bool {
        &&& self.cap == spec_capacity(
            self.addr as int,
            self.storage@.len() as int,
            size_of::<T>() as int,
            align_of::<T>() as int,
        )
        &&& self.items@.len() <= self.cap
    }

    /// Creates a new empty vector over the given byte buffer.
    pub fn new(storage: std::vec::Vec<u8>) -> (r: Self)
        requires
            size_of::<T>() > 0,
            align_of::<T>() > 0,
        ensures
            r.wf(),
            r@ == Seq::<T>::empty(),
            r.storage_len() == storage@.len(),
            r.spec_capacity_of() == spec_capacity(
                r.spec_addr() as int,
                storage@.len() as int,
                size_of::<T>() as int,
                align_of::<T>() as int,
            ),
    {
        let addr = buffer_addr(&storage);
        let size = core::mem::size_of::<T>();
        let align = core::mem::align_of::<T>();
        let cap = capacity_for(addr, storage.len(), size, align);
        Vec { storage, addr, cap, items: std::vec::Vec::new() }
    }

    /// Appends an element at the back, or hands it back unchanged when the
    /// vector is at capacity.
    pub fn push(&mut self, element: T) -> (r: Result<(), T>)
        requires
            old(self).wf(),
        ensures
            final(self).wf(),
            final(self).spec_capacity_of() == old(self).spec_capacity_of(),
            old(self)@.len() == old(self).spec_capacity_of() ==> r == Err::<(), T>(element)
                && final(self)@ == old(self)@,
            old(self)@.len() < old(self).spec_capacity_of() ==> r == Ok::<(), T>(())
                && final(self)@ == old(self)@.push(element),
    {
        if self.items.len() == self.cap {
            return Err(element);
        }
        self.items.push(element);
        Ok(())
    }

    /// Removes the last element and returns it, or `None` if the vector is
    /// empty.
    pub fn pop(&mut self) -> (r: Option<T>)
        requires
            old(self).wf(),
        ensures
            final(self).wf(),
            final(self).spec_capacity_of() == old(self).spec_capacity_of(),
            old(self)@.len() == 0 ==> r is None && final(self)@ == old(self)@,
            old(self)@.len() > 0 ==> r == Some(old(self)@.last()) && final(self)@ == old(
                self,
            )@.drop_last(),
    {
        self.items.pop()
    }

    /// The number of elements in the vector.
    pub fn len(&self) -> (r: usize)
        ensures
            r == self@.len(),
    {
        self.items.len()
    }

    /// The total number of elements the vector can hold.
    pub fn capacity(&self) -> (r: usize)
        requires
            self.wf(),
        ensures
            r == self.spec_capacity_of(),
            r == spec_capacity(
                self.spec_addr() as int,
                self.storage_len() as int,
                size_of::<T>() as int,
                align_of::<T>() as int,
            ),
    {
        self.cap
    }

    /// The elements as a slice, front first.
    pub fn as_slice(&self) -> (r: &[T])
        ensures
            r@ == self@,
    {
        self.items.as_slice()
    }
}

} // verus!
