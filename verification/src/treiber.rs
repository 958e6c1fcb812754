//! A last-in first-out stack of nodes, the shared base of the pools.
//!
//! A node is in exactly one of two states: linked into one stack, or checked
//! out and held by exactly one owning handle.  Pushing transfers the node into
//! the stack; popping detaches the most recently linked node and hands back
//! sole ownership of it.

use vstd::prelude::*;

verus! {

/// A node carrying one value; a pool links nodes into its stack while the
/// value is free.
#[derive(Debug, PartialEq)]
pub struct Node<T> {
    /// The payload carried by this node.
    pub data: T,
}

impl<T> Node<T> {
    /// Wraps a value in a fresh, unlinked node.
    pub fn new(data: T) -> (r: Self)
        ensures
            r.data == data,
    {
        Node { data }
    }
}

/// Sole ownership of a node that is not linked into any stack.
#[derive(Debug, PartialEq)]
pub struct OwningNodePtr<T> {
    node: Node<T>,
}

impl<T> OwningNodePtr<T> {
    /// The value carried by the owned node.
    pub closed spec fn value(self) -> T {
        self.node.data
    }

    /// Takes sole ownership of a node.
    pub fn new(node: Node<T>) -> (r: Self)
        ensures
            r.value() == node.data,
    {
        OwningNodePtr { node }
    }

    /// Read access to the owned value.
    pub fn get(&self) -> (r: &T)
        ensures
            *r == self.value(),
    {
        &self.node.data
    }

    /// Write access to the owned value.
    pub fn get_mut(&mut self) -> (r: &mut T)
        ensures
            *r == old(self).value(),
            final(self).value() == *final(r),
    {
        &mut self.node.data
    }

    /// Gives the node itself back, ending the handle.
    pub fn into_node(self) -> (r: Node<T>)
        ensures
            r.data == self.value(),
    {
        self.node
    }

    /// Trades sole ownership for shared ownership.
    pub fn into_shared(self) -> (r: SharedNodePtr<T>)
        ensures
            r.value() == self.value(),
    {
        SharedNodePtr { node: self.node }
    }
}

/// Shared ownership of a node; only read access to the value is offered.
pub struct SharedNodePtr<T> {
    node: Node<T>,
}

impl<T> SharedNodePtr<T> {
    /// The value carried by the shared node.
    pub closed spec fn value(self) -> T {
        self.node.data
    }

    /// Read access to the shared value.
    pub fn get(&self) -> (r: &T)
        ensures
            *r == self.value(),
    {
        &self.node.data
    }

    /// Trades the last shared handle back for sole ownership.
    pub fn into_owning(self) -> (r: OwningNodePtr<T>)
        ensures
            r.value() == self.value(),
    {
        OwningNodePtr { node: self.node }
    }
}

/// A stack of linked nodes; its view is the sequence of their values, bottom
/// first.
pub struct Stack<T> {
    nodes: Vec<Node<T>>,
}

impl<T> View for Stack<T> {
    type V = Seq<T>;

    closed spec fn view(&self) -> Seq<T> {
        self.nodes@.map_values(|n: Node<T>| n.data)
    }
}

impl<T> Stack<T> {
    /// Creates an empty stack.
    pub fn new() -> (r: Self)
        ensures
            r@ == Seq::<T>::empty(),
    {
        let r = Stack { nodes: Vec::new() };
        proof {
            assert(r@ =~= Seq::<T>::empty());
        }
        r
    }

    /// Links a node on top of the stack, transferring ownership into it.
    pub fn push(&mut self, node: OwningNodePtr<T>)
        ensures
            final(self)@ == old(self)@.push(node.value()),
    {
        let ghost v = node.value();
        self.nodes.push(node.into_node());
        proof {
            assert(self@ =~= old(self)@.push(v));
        }
    }

    /// Detaches the top node, if any, handing back sole ownership of it.
    pub fn pop(&mut self) -> (r: Option<OwningNodePtr<T>>)
        ensures
            old(self)@.len() == 0 ==> r is None && final(self)@ == old(self)@,
            old(self)@.len() > 0 ==> (r matches Some(p) && p.value() == old(self)@.last()
                && final(self)@ == old(self)@.drop_last()),
    {
        match self.nodes.pop() {
            Some(node) => {
                proof {
                    assert(self@ =~= old(self)@.drop_last());
                }
                Some(OwningNodePtr { node })
            },
            None => None,
        }
    }
}

/// After a push of `x` on any stack, an immediate pop returns `x` and leaves
/// the stack as it was: values come back in last-in first-out order, and the
/// stack holds exactly the pushed-and-not-popped values.
pub proof fn lemma_lifo_order<T>(s: Seq<T>, x: T)
    ensures
        s.push(x).len() > 0,
        s.push(x).last() == x,
        s.push(x).drop_last() == s,
{
    assert(s.push(x).drop_last() =~= s);
}

} // verus!
