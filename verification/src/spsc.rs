//! A fixed-capacity, single-producer single-consumer channel.
//!
//! A ring of `N` cells carries the values in flight.  Two cursors advance
//! monotonically over the whole word range, wrapping at the word width and
//! never resetting: the writer's cursor counts the values sent, the reader's
//! the values received, and their wrapped difference is the number of values
//! in flight, never more than `N`.

use vstd::prelude::*;
use core::marker::PhantomData;

verus! {

/// A cursor `k` steps past `c`, wrapping at the word width.
pub open spec fn wrap_add(c: usize, k: nat) -> usize {
    if c + k <= usize::MAX {
        (c + k) as usize
    } else {
        (c + k - usize::MAX - 1) as usize
    }
}

/// The cell `k` steps past `i` on a ring of `n` cells, for `k <= n`.
pub open spec fn ring_add(i: int, k: int, n: int) -> int {
    if i + k < n {
        i + k
    } else {
        i + k - n
    }
}

/// How many steps past `start` the cell `c` lies on a ring of `n` cells.
pub open spec fn ring_offset(start: int, c: int, n: int) -> int {
    if c >= start {
        c - start
    } else {
        c + n - start
    }
}

/// A fixed-capacity channel over a ring of `N` cells.
pub struct Channel<T, const N: usize> {
    buf: Vec<Option<T>>,
    read: usize,
    write: usize,
    read_idx: usize,
    write_idx: usize,
    sent: Ghost<Seq<T>>,
    received: Ghost<Seq<T>>,
}

impl<T, const N: usize> Channel<T, N> {
    /// Every value ever sent into the channel, in order.
    pub closed spec fn sent(&self) -> Seq<T> {
        self.sent@
    }

    /// Every value ever received from the channel, in order.
    pub closed spec fn received(&self) -> Seq<T> {
        self.received@
    }

    /// The values in flight: sent and not yet received, oldest first.
    pub open spec fn pending(&self) -> Seq<T> {
        self.sent().skip(self.received().len() as int)
    }

    /// The reader's cursor.
    pub closed spec fn read_cursor(&self) -> usize {
        self.read
    }

    /// The writer's cursor.
    pub closed spec fn write_cursor(&self) -> usize {
        self.write
    }

    /// What holds of every channel: the received values are a prefix of the
    /// sent ones, at most `N` values are in flight, the writer's cursor is
    /// the reader's advanced by their number, and the ring cells starting at
    /// the reader's cell hold exactly the values in flight.
    pub closed spec fn wf(&self) -> bool {
        &&& N >= 1
        &&& self.buf@.len() == N
        &&& self.read_idx < N
        &&& self.write_idx < N
        &&& self.received@.len() <= self.sent@.len()
        &&& self.received@ == self.sent@.take(self.received@.len() as int)
        &&& self.pending().len() <= N
        &&& self.write == wrap_add(self.read, self.pending().len())
        &&& self.write_idx == ring_add(self.read_idx as int, self.pending().len() as int, N as int)
        &&& forall|c: int|
            0 <= c < N ==> #[trigger] self.buf@[c] == (if ring_offset(
                self.read_idx as int,
                c,
                N as int,
            ) < self.pending().len() {
                Some(self.pending()[ring_offset(self.read_idx as int, c, N as int)])
            } else {
                None::<T>
            })
    }

    /// Creates a new channel with both cursors at zero.
    pub fn new() -> (r: Self)
        requires
            N >= 1,
        ensures
            r.wf(),
            r.sent() == Seq::<T>::empty(),
            r.received() == Seq::<T>::empty(),
            r.pending() == Seq::<T>::empty(),
            r.read_cursor() == 0,
            r.write_cursor() == 0,
    {
        Self::with_cursor(0)
    }

    /// Creates a new channel with both cursors preset to `cursor`: any
    /// matching start is as good as zero, so the channel behaves exactly as a
    /// zero-started one even while the cursors wrap the word width.
    pub fn with_cursor(cursor: usize) -> (r: Self)
        requires
            N >= 1,
        ensures
            r.wf(),
            r.sent() == Seq::<T>::empty(),
            r.received() == Seq::<T>::empty(),
            r.pending() == Seq::<T>::empty(),
            r.read_cursor() == cursor,
            r.write_cursor() == cursor,
    {
        let mut buf: Vec<Option<T>> = Vec::new();
        let mut i: usize = 0;
        while i < N
            invariant
                i <= N,
                buf@.len() == i,
                forall|c: int| 0 <= c < i ==> #[trigger] buf@[c] is None,
            decreases N - i,
        {
            buf.push(None);
            i += 1;
        }
        let idx = cursor % N;
        let r = Channel {
            buf,
            read: cursor,
            write: cursor,
            read_idx: idx,
            write_idx: idx,
            sent: Ghost(Seq::empty()),
            received: Ghost(Seq::empty()),
        };
        proof {
            assert(r.pending() =~= Seq::<T>::empty());
        }
        r
    }

    /// Splits the channel into its two roles.  Exactly one holder may send
    /// and exactly one may receive.
    pub fn split(&mut self) -> (r: (Sender<T>, Receiver<T>)) {
        (Sender { marker: PhantomData }, Receiver { marker: PhantomData })
    }

    /// How many values are in flight, computed from the wrapped cursor
    /// difference.
    fn len(&self) -> (r: usize)
        requires
            self.wf(),
        ensures
            r == self.pending().len(),
    {
        if self.write >= self.read {
            self.write - self.read
        } else {
            (usize::MAX - self.read) + self.write + 1
        }
    }

    fn send_inner(&mut self, value: T) -> (r: Result<(), T>)
        requires
            old(self).wf(),
        ensures
            final(self).wf(),
            old(self).pending().len() == N ==> r == Err::<(), T>(value)
                && final(self).sent() == old(self).sent()
                && final(self).received() == old(self).received(),
            old(self).pending().len() < N ==> r == Ok::<(), T>(())
                && final(self).sent() == old(self).sent().push(value)
                && final(self).received() == old(self).received()
                && final(self).pending() == old(self).pending().push(value),
    {
        let current_len = self.len();
        if current_len == N {
            return Err(value);
        }
        let ghost len = old(self).pending().len() as int;
        let ghost read_idx = self.read_idx as int;
        self.buf[self.write_idx] = Some(value);
        self.write_idx = if self.write_idx + 1 == N {
            0
        } else {
            self.write_idx + 1
        };
        self.write = if self.write == usize::MAX {
            0
        } else {
            self.write + 1
        };
        proof {
            self.sent@ = self.sent@.push(value);
            assert(self.received@ =~= self.sent@.take(self.received@.len() as int));
            assert(self.pending() =~= old(self).pending().push(value));
            assert forall|c: int| 0 <= c < N implies #[trigger] self.buf@[c] == (if ring_offset(
                read_idx,
                c,
                N as int,
            ) < len + 1 {
                Some(self.pending()[ring_offset(read_idx, c, N as int)])
            } else {
                None::<T>
            }) by {
                let off = ring_offset(read_idx, c, N as int);
                assert(old(self).buf@[c] == (if off < len {
                    Some(old(self).pending()[off])
                } else {
                    None::<T>
                }));
            }
        }
        Ok(())
    }

    fn recv_inner(&mut self) -> (r: Option<T>)
        requires
            old(self).wf(),
        ensures
            final(self).wf(),
            old(self).pending().len() == 0 ==> r is None
                && final(self).sent() == old(self).sent()
                && final(self).received() == old(self).received(),
            old(self).pending().len() > 0 ==> r == Some(old(self).pending()[0])
                && final(self).sent() == old(self).sent()
                && final(self).received() == old(self).received().push(old(self).pending()[0])
                && final(self).pending() == old(self).pending().skip(1),
    {
        if self.read == self.write {
            proof {
                assert(old(self).pending().len() == 0);
            }
            return None;
        }
        let ghost len = old(self).pending().len() as int;
        let ghost read_idx = self.read_idx as int;
        let ghost front = old(self).pending()[0];
        let value = self.buf[self.read_idx].take();
        self.read_idx = if self.read_idx + 1 == N {
            0
        } else {
            self.read_idx + 1
        };
        self.read = if self.read == usize::MAX {
            0
        } else {
            self.read + 1
        };
        proof {
            self.received@ = self.received@.push(front);
            assert(self.received@ =~= self.sent@.take(self.received@.len() as int));
            assert(self.pending() =~= old(self).pending().skip(1));
            let read_idx_new = self.read_idx as int;
            assert forall|c: int| 0 <= c < N implies #[trigger] self.buf@[c] == (if ring_offset(
                read_idx_new,
                c,
                N as int,
            ) < len - 1 {
                Some(self.pending()[ring_offset(read_idx_new, c, N as int)])
            } else {
                None::<T>
            }) by {
                let off = ring_offset(read_idx, c, N as int);
                assert(old(self).buf@[c] == (if off < len {
                    Some(old(self).pending()[off])
                } else {
                    None::<T>
                }));
            }
        }
        value
    }
}

/// The sending role of a channel: its holder alone advances the write cursor.
pub struct Sender<T> {
    marker: PhantomData<T>,
}

impl<T> Sender<T> {
    /// Sends a value through the channel, or hands it back unchanged if the
    /// channel is full.
    pub fn send<const N: usize>(&self, channel: &mut Channel<T, N>, value: T) -> (r: Result<
        (),
        T,
    >)
        requires
            old(channel).wf(),
        ensures
            final(channel).wf(),
            old(channel).pending().len() == N ==> r == Err::<(), T>(value)
                && final(channel).sent() == old(channel).sent()
                && final(channel).received() == old(channel).received(),
            old(channel).pending().len() < N ==> r == Ok::<(), T>(())
                && final(channel).sent() == old(channel).sent().push(value)
                && final(channel).received() == old(channel).received()
                && final(channel).pending() == old(channel).pending().push(value),
    {
        channel.send_inner(value)
    }
}

/// The receiving role of a channel: its holder alone advances the read
/// cursor.
pub struct Receiver<T> {
    marker: PhantomData<T>,
}

impl<T> Receiver<T> {
    /// Receives the oldest value in flight, or nothing if the channel is
    /// empty.
    pub fn recv<const N: usize>(&self, channel: &mut Channel<T, N>) -> (r: Option<T>)
        requires
            old(channel).wf(),
        ensures
            final(channel).wf(),
            old(channel).pending().len() == 0 ==> r is None
                && final(channel).sent() == old(channel).sent()
                && final(channel).received() == old(channel).received(),
            old(channel).pending().len() > 0 ==> r == Some(old(channel).pending()[0])
                && final(channel).sent() == old(channel).sent()
                && final(channel).received() == old(channel).received().push(
                    old(channel).pending()[0],
                )
                && final(channel).pending() == old(channel).pending().skip(1),
    {
        channel.recv_inner()
    }
}

/// The values received from a channel are exactly the oldest of the values
/// sent into it: what has come out is a prefix of what went in, the two ends
/// agree on the order, and the values in flight never exceed the capacity.
pub proof fn lemma_received_is_prefix_of_sent<T, const N: usize>(channel: &Channel<T, N>)
    requires
        channel.wf(),
    ensures
        channel.received().len() <= channel.sent().len(),
        channel.received() == channel.sent().take(channel.received().len() as int),
        channel.sent() == channel.received() + channel.pending(),
        channel.pending().len() <= N,
{
    assert(channel.sent() =~= channel.received() + channel.pending());
}

/// Round trip: over the channel's view, pushing a value onto an empty
/// in-flight queue makes it the front — so a send on an empty channel
/// followed by a receive yields exactly the value sent, leaving the channel
/// empty again.
pub proof fn lemma_send_recv_round_trip<T>(pending: Seq<T>, value: T)
    requires
        pending.len() == 0,
    ensures
        pending.push(value).len() == 1,
        pending.push(value)[0] == value,
        pending.push(value).skip(1) == Seq::<T>::empty(),
{
    assert(pending.push(value).skip(1) =~= Seq::<T>::empty());
}

} // verus!
