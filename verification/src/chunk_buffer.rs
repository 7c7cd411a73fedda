//! Buffering of variable-size audio callbacks into fixed-size chunks for a
//! resampler: samples are appended as they arrive and taken out a full chunk
//! at a time, in order; what does not fill a chunk waits for the next
//! callback.
use vstd::prelude::*;
use std::collections::VecDeque;

verus! {

/// Samples waiting to fill a chunk of a fixed size.
pub struct ChunkBuffer<T> {
    pending: VecDeque<T>,
    chunk_size: usize,
}

impl<T: Copy> ChunkBuffer<T> {
    /// The samples waiting, oldest first.
    pub closed spec fn pending(&self) -> Seq<T> {
        self.pending@
    }

    /// The size of a chunk.
    pub closed spec fn size(&self) -> nat {
        self.chunk_size as nat
    }

    /// Chunks are never empty.
    pub closed spec fn wf(&self) -> bool {
        self.chunk_size > 0
    }

    /// An empty buffer for chunks of `chunk_size` samples.
    pub fn new(chunk_size: usize) -> (r: Self)
        requires
            chunk_size > 0,
        ensures
            r.wf(),
            r.pending() == Seq::<T>::empty(),
            r.size() == chunk_size,
    {
        ChunkBuffer { pending: VecDeque::new(), chunk_size }
    }

    /// How many samples are waiting.
    pub fn len(&self) -> (r: usize)
        ensures
            r == self.pending().len(),
    {
        self.pending.len()
    }

    /// Appends the samples of a callback.
    pub fn extend(&mut self, samples: &Vec<T>)
        requires
            old(self).wf(),
        ensures
            final(self).wf(),
            final(self).size() == old(self).size(),
            final(self).pending() == old(self).pending() + samples@,
    {
        let mut i: usize = 0;
        while i < samples.len()
            invariant
                i <= samples.len(),
                self.chunk_size == old(self).chunk_size,
                self.pending@ == old(self).pending@ + samples@.take(i as int),
            decreases samples.len() - i,
        {
            self.pending.push_back(samples[i]);
            i = i + 1;
            assert(self.pending@ =~= old(self).pending@ + samples@.take(i as int));
        }
        assert(samples@.take(samples.len() as int) =~= samples@);
    }

    /// Takes the oldest full chunk, if a full chunk is waiting.
    pub fn take_chunk(&mut self) -> (r: Option<Vec<T>>)
        requires
            old(self).wf(),
        ensures
            final(self).wf(),
            final(self).size() == old(self).size(),
            old(self).pending().len() < old(self).size() ==> r is None && final(self).pending()
                == old(self).pending(),
            old(self).pending().len() >= old(self).size() ==> (r matches Some(c) && c@ == old(
                self,
            ).pending().take(old(self).size() as int)) && final(self).pending() == old(
                self,
            ).pending().skip(old(self).size() as int),
    {
        if self.pending.len() < self.chunk_size {
            return None;
        }
        let mut out: Vec<T> = Vec::new();
        let mut taken: usize = 0;
        while taken < self.chunk_size
            invariant
                taken <= self.chunk_size,
                self.chunk_size == old(self).chunk_size,
                old(self).pending@.len() >= self.chunk_size,
                out@ == old(self).pending@.take(taken as int),
                self.pending@ == old(self).pending@.skip(taken as int),
            decreases self.chunk_size - taken,
        {
            let x = self.pending.pop_front();
            match x {
                Some(v) => out.push(v),
                None => {},
            }
            taken = taken + 1;
            assert(out@ =~= old(self).pending@.take(taken as int));
            assert(self.pending@ =~= old(self).pending@.skip(taken as int));
        }
        Some(out)
    }
}

/// Taking chunks loses and reorders nothing: a chunk taken, followed by what
/// still waits, is what waited before.
pub proof fn lemma_chunk_then_rest<T>(pending: Seq<T>, size: nat)
    requires
        pending.len() >= size,
    ensures
        pending.take(size as int) + pending.skip(size as int) == pending,
        pending.take(size as int).len() == size,
{
    assert(pending.take(size as int) + pending.skip(size as int) =~= pending);
}

} // verus!
