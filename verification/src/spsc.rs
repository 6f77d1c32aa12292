//! Fixed-capacity single-producer/single-consumer ring buffer of 32-bit
//! words.
//!
//! A ring of parameter `N` holds at most `N - 1` items: one slot is
//! sacrificed so that an equal read and write index always means empty.
//! The model of a ring is the sequence of words it holds, oldest first;
//! `push` appends to it and `pop` takes its head, so the values popped
//! over any run are a prefix, in order, of the values pushed.

use vstd::prelude::*;

verus! {

/// Fixed-capacity FIFO queue of `u32` words with wrap-around indices.
///
/// One producer and one consumer context may share a ring; `clear` is
/// only safe while neither is active.
pub struct SpscRing<const N: usize> {
    /// Backing storage of exactly `N` words.
    pub buffer: Vec<u32>,
    /// Index of the next slot to write (producer side).
    pub write_idx: usize,
    /// Index of the next slot to read (consumer side).
    pub read_idx: usize,
}

impl<const N: usize> SpscRing<N> {
    /// Structural invariant: the storage is fully allocated and both
    /// indices lie inside it.
    pub open spec fn wf(self) -> bool {
        &&& N >= 1
        &&& self.buffer@.len() == N
        &&& self.write_idx < N
        &&& self.read_idx < N
    }

    /// The words the ring holds, oldest first.
    pub open spec fn contents(self) -> Seq<u32> {
        if self.write_idx >= self.read_idx {
            self.buffer@.subrange(self.read_idx as int, self.write_idx as int)
        } else {
            self.buffer@.subrange(self.read_idx as int, N as int) + self.buffer@.subrange(
                0,
                self.write_idx as int,
            )
        }
    }

    /// An empty ring. A ring needs at least one slot to tell empty
    /// from full.
    pub fn new() -> (r: SpscRing<N>)
        requires
            N >= 1,
        ensures
            r.wf(),
            r.contents().len() == 0,
            r.write_idx == 0,
            r.read_idx == 0,
            r.buffer@ == Seq::<u32>::new(N as nat, |i: int| 0u32),
    {
        let mut buffer: Vec<u32> = Vec::new();
        let mut i: usize = 0;
        while i < N
            invariant
                i <= N,
                buffer@ =~= Seq::<u32>::new(i as nat, |j: int| 0u32),
            decreases N - i,
        {
            buffer.push(0u32);
            i += 1;
        }
        proof {
            assert(buffer@ =~= Seq::<u32>::new(N as nat, |i: int| 0u32));
        }
        SpscRing { buffer, write_idx: 0, read_idx: 0 }
    }

    /// Append `value` (producer side). Fails exactly when the ring
    /// already holds its capacity of `N - 1` words, and then changes
    /// nothing.
    pub fn push(&mut self, value: u32) -> (r: bool)
        requires
            old(self).wf(),
        ensures
            final(self).wf(),
            r == (old(self).contents().len() < N - 1),
            r ==> final(self).contents() == old(self).contents().push(value),
            !r ==> *final(self) == *old(self),
    {
        let write = self.write_idx;
        let read = self.read_idx;
        let next_write = if write + 1 == N {
            0
        } else {
            write + 1
        };
        if next_write == read {
            return false;
        }
        self.buffer[write] = value;
        self.write_idx = next_write;
        proof {
            assert(self.contents() =~= old(self).contents().push(value));
        }
        true
    }

    /// Take the oldest word (consumer side); `None` exactly when the
    /// ring is empty, and then nothing changes.
    pub fn pop(&mut self) -> (r: Option<u32>)
        requires
            old(self).wf(),
        ensures
            final(self).wf(),
            old(self).contents().len() == 0 ==> r is None && *final(self) == *old(self),
            old(self).contents().len() > 0 ==> r == Some(old(self).contents()[0]) && final(self).contents() == old(self).contents().subrange(1, old(self).contents().len() as int),
    {
        let read = self.read_idx;
        let write = self.write_idx;
        if read == write {
            return None;
        }
        let value = self.buffer[read];
        let next_read = if read + 1 == N {
            0
        } else {
            read + 1
        };
        self.read_idx = next_read;
        proof {
            assert(self.contents() =~= old(self).contents().subrange(
                1,
                old(self).contents().len() as int,
            ));
        }
        Some(value)
    }

    /// How many words the ring holds.
    pub fn len(&self) -> (r: usize)
        requires
            self.wf(),
        ensures
            r == self.contents().len(),
    {
        let write = self.write_idx;
        let read = self.read_idx;
        if write >= read {
            write - read
        } else {
            N - read + write
        }
    }

    /// Whether the ring holds nothing.
    pub fn is_empty(&self) -> (r: bool)
        requires
            self.wf(),
        ensures
            r == (self.contents().len() == 0),
    {
        self.write_idx == self.read_idx
    }

    /// Whether the ring holds its capacity of `N - 1` words.
    pub fn is_full(&self) -> (r: bool)
        requires
            self.wf(),
        ensures
            r == (self.contents().len() == N - 1),
    {
        let write = self.write_idx;
        let read = self.read_idx;
        let next_write = if write + 1 == N {
            0
        } else {
            write + 1
        };
        next_write == read
    }

    /// Usable capacity: `N - 1` words.
    pub fn capacity(&self) -> (r: usize)
        requires
            self.wf(),
        ensures
            r == N - 1,
    {
        N - 1
    }

    /// Empty the ring by zeroing both indices. Only safe while neither
    /// a producer nor a consumer is active on it.
    pub fn clear(&mut self)
        requires
            old(self).wf(),
        ensures
            final(self).wf(),
            final(self).contents().len() == 0,
            final(self).write_idx == 0,
            final(self).read_idx == 0,
            final(self).buffer == old(self).buffer,
    {
        self.read_idx = 0;
        self.write_idx = 0;
    }
}

/// The bookkeeping of a producer/consumer run: the words popped so far,
/// followed by the words a ring still holds, are exactly the words pushed
/// so far, in push order.
pub open spec fn fifo_consistent(pushed: Seq<u32>, popped: Seq<u32>, held: Seq<u32>) -> bool {
    popped + held == pushed
}

/// An idle ring that holds nothing is consistent with nothing pushed and
/// nothing popped; this is the state `SpscRing::new` establishes.
pub proof fn lemma_fifo_new()
    ensures
        fifo_consistent(Seq::<u32>::empty(), Seq::<u32>::empty(), Seq::<u32>::empty()),
{
    assert(Seq::<u32>::empty() + Seq::<u32>::empty() =~= Seq::<u32>::empty());
}

/// A successful `push` keeps the run consistent: its contract appends the
/// value to what the ring holds, and the push history grows by the same
/// value.
pub proof fn lemma_fifo_push(pushed: Seq<u32>, popped: Seq<u32>, held: Seq<u32>, v: u32)
    requires
        fifo_consistent(pushed, popped, held),
    ensures
        fifo_consistent(pushed.push(v), popped, held.push(v)),
{
    assert(popped + held.push(v) =~= (popped + held).push(v));
}

/// A successful `pop` keeps the run consistent: its contract removes the
/// head of what the ring holds, and the pop history grows by that head.
pub proof fn lemma_fifo_pop(pushed: Seq<u32>, popped: Seq<u32>, held: Seq<u32>)
    requires
        fifo_consistent(pushed, popped, held),
        held.len() > 0,
    ensures
        fifo_consistent(pushed, popped.push(held[0]), held.subrange(1, held.len() as int)),
{
    assert(popped.push(held[0]) + held.subrange(1, held.len() as int) =~= popped + held);
}

/// In any consistent run the popped words are a prefix of the pushed
/// words, in push order: first-in, first-out.
pub proof fn lemma_fifo_prefix(pushed: Seq<u32>, popped: Seq<u32>, held: Seq<u32>)
    requires
        fifo_consistent(pushed, popped, held),
    ensures
        popped.len() <= pushed.len(),
        popped == pushed.take(popped.len() as int),
{
    assert(popped =~= (popped + held).take(popped.len() as int));
}

/// Capacity bound: a well-formed ring of parameter `N` never holds more
/// than `N - 1` words, so at most `N - 1` pushes succeed before a pop.
pub proof fn lemma_capacity_bound<const N: usize>(r: SpscRing<N>)
    requires
        r.wf(),
    ensures
        r.contents().len() <= N - 1,
{
}

/// Round trip through an empty ring, on the model that `push` and `pop`
/// are specified against: pushing `v` leaves exactly one word, popping
/// returns that word and leaves the ring empty, and popping an empty
/// ring returns nothing (its contract then changes no state).
pub proof fn lemma_round_trip(v: u32)
    ensures
        Seq::<u32>::empty().push(v).len() == 1,
        Seq::<u32>::empty().push(v)[0] == v,
        Seq::<u32>::empty().push(v).subrange(1, 1).len() == 0,
{
    assert(Seq::<u32>::empty().push(v).subrange(1, 1) =~= Seq::<u32>::empty());
}

} // verus!
