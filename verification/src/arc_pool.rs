//! An arc pool.
//!
//! Like the box pool, but a requested value is jointly owned: handles are
//! duplicated and dropped through the pool, a strong count follows the number
//! of live handles of each slot, and the drop that takes the count to zero is
//! the one that destroys the value and frees the slot.

use vstd::prelude::*;
use core::marker::PhantomData;
use crate::treiber::{Node, OwningNodePtr, Stack};

verus! {

/// The state of one managed slot of an `ArcPool`.
pub enum ArcEntry<T> {
    /// The slot is free; no value lives in it.
    Vacant,
    /// The slot holds a value jointly owned by `strong` live handles.
    Occupied { value: T, strong: usize },
}

impl<T> ArcEntry<T> {
    /// The value living in an occupied slot.
    pub open spec fn value(self) -> T
        recommends
            self is Occupied,
    {
        match self {
            ArcEntry::Occupied { value, strong } => value,
            ArcEntry::Vacant => arbitrary(),
        }
    }

    /// How many live handles own the slot's value.
    pub open spec fn strong(self) -> usize
        recommends
            self is Occupied,
    {
        match self {
            ArcEntry::Occupied { value, strong } => strong,
            ArcEntry::Vacant => arbitrary(),
        }
    }
}

/// What one handle drop makes of a slot: the strong count goes down by one,
/// and the drop that takes it to zero empties the slot.
pub open spec fn after_drop<T>(e: ArcEntry<T>) -> ArcEntry<T> {
    match e {
        ArcEntry::Occupied { value, strong } => if strong > 1 {
            ArcEntry::Occupied { value, strong: (strong - 1) as usize }
        } else {
            ArcEntry::Vacant
        },
        ArcEntry::Vacant => ArcEntry::Vacant,
    }
}

/// A slot after `k` handle drops in a row.
pub open spec fn after_drops<T>(e: ArcEntry<T>, k: nat) -> ArcEntry<T>
    decreases k,
{
    if k == 0 {
        e
    } else {
        after_drop(after_drops(e, (k - 1) as nat))
    }
}

/// A pool of arcs: a table of slots and a stack of the free slots' indices.
pub struct ArcPool<T> {
    entries: Vec<ArcEntry<T>>,
    free: Stack<usize>,
}

impl<T> ArcPool<T> {
    /// The states of all managed slots.
    pub closed spec fn entries(&self) -> Seq<ArcEntry<T>> {
        self.entries@
    }

    /// How many slots this pool manages.
    pub open spec fn slot_count(&self) -> nat {
        self.entries().len()
    }

    /// The state of slot `i`.
    pub open spec fn entry(&self, i: int) -> ArcEntry<T> {
        self.entries()[i]
    }

    /// The indices of the free slots, in stack order.
    pub closed spec fn free_list(&self) -> Seq<usize> {
        self.free@
    }

    /// How many slots are free.
    pub open spec fn free_count(&self) -> nat {
        self.free_list().len()
    }

    /// The free list names vacant slots only, each at most once.
    pub closed spec fn wf(&self) -> bool {
        &&& forall|j: int|
            0 <= j < self.free@.len() ==> (#[trigger] self.free@[j]) < self.entries@.len()
                && self.entries@[self.free@[j] as int] is Vacant
        &&& forall|j1: int, j2: int|
            0 <= j1 < j2 < self.free@.len() ==> self.free@[j1] != self.free@[j2]
    }

    /// Whether `arc` is a live handle of this pool.
    pub open spec fn is_live(&self, arc: Arc<T>) -> bool {
        arc.slot_index() < self.slot_count() && self.entry(arc.slot_index() as int) is Occupied
    }

    /// Creates a new, empty arc pool.
    pub fn new() -> (r: Self)
        ensures
            r.wf(),
            r.slot_count() == 0,
            r.free_count() == 0,
    {
        ArcPool { entries: Vec::new(), free: Stack::new() }
    }

    /// Gives a memory slot to the pool, growing its capacity by one.
    pub fn manage(&mut self, slot: Slot<T>)
        requires
            old(self).wf(),
        ensures
            final(self).wf(),
            final(self).entries() == old(self).entries().push(ArcEntry::Vacant),
            final(self).free_list() == old(self).free_list().push(old(self).slot_count() as usize),
    {
        let Slot { marker: _ } = slot;
        let idx = self.entries.len();
        self.entries.push(ArcEntry::Vacant);
        self.free.push(OwningNodePtr::new(Node::new(idx)));
    }

    /// Requests a slot from the pool and moves `value` into it, jointly owned
    /// by a single handle.  With no free slot, the value comes back unchanged.
    pub fn request(&mut self, value: T) -> (r: Result<Arc<T>, T>)
        requires
            old(self).wf(),
        ensures
            final(self).wf(),
            old(self).free_count() == 0 ==> r == Err::<Arc<T>, T>(value)
                && final(self).entries() == old(self).entries()
                && final(self).free_list() == old(self).free_list(),
            old(self).free_count() > 0 ==> (r matches Ok(arc)
                && arc.slot_index() == old(self).free_list().last()
                && final(self).is_live(arc)
                && final(self).entries() == old(self).entries().update(
                    arc.slot_index() as int,
                    ArcEntry::Occupied { value, strong: 1 },
                )
                && final(self).free_list() == old(self).free_list().drop_last()),
    {
        match self.free.pop() {
            Some(p) => {
                let idx = p.into_node().data;
                self.entries[idx] = ArcEntry::Occupied { value, strong: 1 };
                Ok(Arc { index: idx, marker: PhantomData })
            },
            None => Err(value),
        }
    }

    /// Read access to the value a handle owns jointly.
    pub fn get(&self, arc: &Arc<T>) -> (r: &T)
        requires
            self.wf(),
            self.is_live(*arc),
        ensures
            *r == self.entry(arc.slot_index() as int).value(),
    {
        match &self.entries[arc.index] {
            ArcEntry::Occupied { value, strong: _ } => value,
            ArcEntry::Vacant => unreached(),
        }
    }

    /// Duplicates a handle: one more handle owns the slot's value, and the
    /// slot's strong count goes up by one.
    pub fn clone_arc(&mut self, arc: &Arc<T>) -> (r: Arc<T>)
        requires
            old(self).wf(),
            old(self).is_live(*arc),
            old(self).entry(arc.slot_index() as int).strong() < usize::MAX,
        ensures
            final(self).wf(),
            r.slot_index() == arc.slot_index(),
            final(self).entries() == old(self).entries().update(
                arc.slot_index() as int,
                ArcEntry::Occupied {
                    value: old(self).entry(arc.slot_index() as int).value(),
                    strong: (old(self).entry(arc.slot_index() as int).strong() + 1) as usize,
                },
            ),
            final(self).free_list() == old(self).free_list(),
    {
        let idx = arc.index;
        let entry = &mut self.entries[idx];
        match entry {
            ArcEntry::Occupied { value: _, strong } => {
                *strong = *strong + 1;
            },
            ArcEntry::Vacant => {
                proof {
                    assert(false);
                }
            },
        }
        Arc { index: idx, marker: PhantomData }
    }

    /// Drops a handle: the slot's strong count goes down by one, and the drop
    /// that takes it to zero destroys the value and frees the slot.
    pub fn drop_arc(&mut self, arc: Arc<T>)
        requires
            old(self).wf(),
            old(self).is_live(arc),
        ensures
            final(self).wf(),
            final(self).entry(arc.slot_index() as int) == after_drop(
                old(self).entry(arc.slot_index() as int),
            ),
            old(self).entry(arc.slot_index() as int).strong() > 1 ==> final(self).entries()
                == old(self).entries().update(
                    arc.slot_index() as int,
                    after_drop(old(self).entry(arc.slot_index() as int)),
                ) && final(self).free_list() == old(self).free_list(),
            old(self).entry(arc.slot_index() as int).strong() == 1 ==> final(self).entries()
                == old(self).entries().update(arc.slot_index() as int, ArcEntry::Vacant)
                && final(self).free_list() == old(self).free_list().push(arc.slot_index()),
    {
        let idx = arc.index;
        let last = {
            let entry = &mut self.entries[idx];
            match entry {
                ArcEntry::Occupied { value: _, strong } => {
                    if *strong > 1 {
                        *strong = *strong - 1;
                        false
                    } else {
                        true
                    }
                },
                ArcEntry::Vacant => {
                    proof {
                        assert(false);
                    }
                    false
                },
            }
        };
        if last {
            self.entries[idx] = ArcEntry::Vacant;
            self.free.push(OwningNodePtr::new(Node::new(idx)));
        }
    }
}

/// An un-managed memory slot; it must be placed in a pool before use.
pub struct Slot<T> {
    marker: PhantomData<T>,
}

impl<T> Slot<T> {
    /// Creates an un-managed memory slot.
    pub fn new() -> Self {
        Slot { marker: PhantomData }
    }
}

/// A shared-ownership handle to a value living in an `ArcPool` slot.
#[derive(Debug, PartialEq)]
pub struct Arc<T> {
    index: usize,
    marker: PhantomData<T>,
}

impl<T> Arc<T> {
    /// Which slot of its pool this handle owns jointly.
    pub closed spec fn slot_index(self) -> usize {
        self.index
    }
}

/// One slot of an arc pool under a run of handle drops: starting from a value
/// jointly owned by `n` live handles, each of the first `n - 1` drops only
/// lowers the strong count and leaves the value alive, and the `n`-th drop is
/// the single one that destroys the value and frees the slot.
pub proof fn lemma_shared_handle_drops<T>(value: T, n: usize, k: nat)
    requires
        1 <= n,
        k <= n,
    ensures
        k < n ==> after_drops(ArcEntry::Occupied { value, strong: n }, k)
            == (ArcEntry::Occupied { value, strong: (n - k) as usize }),
        k == n ==> after_drops(ArcEntry::Occupied { value, strong: n }, k)
            == ArcEntry::<T>::Vacant,
    decreases k,
{
    if k > 0 {
        lemma_shared_handle_drops(value, n, (k - 1) as nat);
    }
}

} // verus!
