//! The sample queue before it is split into its two ends: a bounded FIFO
//! whose contents are known exactly, because nothing else can touch it.

use vstd::prelude::*;
use crate::handles::{mark_overrun, playback_sample};
use crate::model::{
    accepted_count, after_drain, after_feed, after_pop, after_push, drained_block, overruns,
    played_sample, pop_outcome, silence, underruns, MAX_CAPACITY, SILENCE,
};
use crate::ring::{
    ring_capacity, ring_contents, ring_len, ring_new, ring_slots, ring_try_pop, ring_try_push,
    Ring,
};

verus! {

/// The error of a push that found no free slot.
#[derive(Clone, Copy, Debug, PartialEq, Eq)]
pub struct Full;

/// A fixed-capacity FIFO of samples.
pub struct SampleQueue {
    pub(crate) ring: Ring,
}

impl View for SampleQueue {
    type V = Seq<u32>;

    /// The queued samples, oldest first.
    closed spec fn view(&self) -> Seq<u32> {
        ring_contents(self.ring)
    }
}

impl SampleQueue {
    /// The number of slots the queue was created with.
    pub closed spec fn slots(&self) -> nat {
        ring_capacity(self.ring)
    }

    /// A queue has at least one slot and never holds more samples than slots.
    pub open spec fn wf(&self) -> bool {
        &&& 0 < self.slots() <= MAX_CAPACITY
        &&& self@.len() <= self.slots()
    }

    /// Creates an empty queue of `capacity` slots.
    pub fn new(capacity: usize) -> (queue: SampleQueue)
        requires
            0 < capacity <= MAX_CAPACITY,
        ensures
            queue.wf(),
            queue@ == Seq::<u32>::empty(),
            queue.slots() == capacity,
    {
        SampleQueue { ring: ring_new(capacity) }
    }

    /// Gives up the ring buffer the queue is kept in, as it stands.
    pub(crate) fn into_ring(self) -> (ring: Ring)
        ensures
            ring_contents(ring) == self@,
            ring_capacity(ring) == self.slots(),
    {
        self.ring
    }

    /// The number of slots.
    pub fn capacity(&self) -> (n: usize)
        ensures
            n == self.slots(),
    {
        ring_slots(&self.ring)
    }

    /// The number of queued samples.
    pub fn len(&self) -> (n: usize)
        ensures
            n == self@.len(),
    {
        ring_len(&self.ring)
    }

    /// The number of free slots.
    pub fn free_len(&self) -> (n: usize)
        requires
            self.wf(),
        ensures
            n == self.slots() - self@.len(),
    {
        ring_slots(&self.ring) - ring_len(&self.ring)
    }

    /// Whether nothing is queued.
    pub fn is_empty(&self) -> (b: bool)
        ensures
            b == (self@.len() == 0),
    {
        ring_len(&self.ring) == 0
    }

    /// Whether no slot is free.
    pub fn is_full(&self) -> (b: bool)
        requires
            self.wf(),
        ensures
            b == (self@.len() == self.slots()),
    {
        ring_len(&self.ring) == ring_slots(&self.ring)
    }

    /// Appends one sample at the tail. A full queue refuses it and keeps its
    /// samples unchanged and in order.
    pub fn push(&mut self, sample: u32) -> (r: Result<(), Full>)
        requires
            old(self).wf(),
        ensures
            final(self).wf(),
            final(self).slots() == old(self).slots(),
            final(self)@ == after_push(old(self)@, old(self).slots(), sample),
            old(self)@.len() < old(self).slots() ==> r == Ok::<(), Full>(()) && final(self)@
                == old(self)@.push(sample),
            old(self)@.len() == old(self).slots() ==> r == Err::<(), Full>(Full) && final(self)@
                == old(self)@,
    {
        match ring_try_push(&mut self.ring, sample) {
            Ok(()) => Ok(()),
            Err(_) => Err(Full),
        }
    }

    /// Removes and returns the sample at the head, or `None` from an empty
    /// queue.
    pub fn pop(&mut self) -> (r: Option<u32>)
        requires
            old(self).wf(),
        ensures
            final(self).wf(),
            final(self).slots() == old(self).slots(),
            r == pop_outcome(old(self)@),
            final(self)@ == after_pop(old(self)@),
    {
        ring_try_pop(&mut self.ring)
    }

    /// Queues `n` silent samples behind what is already queued. The caller
    /// leaves room for them, so none is refused.
    pub fn fill_with_silence(&mut self, n: usize)
        requires
            old(self).wf(),
            old(self)@.len() + n <= old(self).slots(),
        ensures
            final(self).wf(),
            final(self).slots() == old(self).slots(),
            final(self)@ == old(self)@ + silence(n as nat),
    {
        let mut i: usize = 0;
        while i < n
            invariant
                i <= n,
                self.wf(),
                self.slots() == old(self).slots(),
                old(self)@.len() + n <= old(self).slots(),
                self@ == old(self)@ + silence(i as nat),
            decreases n - i,
        {
            let _ = ring_try_push(&mut self.ring, SILENCE);
            i = i + 1;
            assert(self@ =~= old(self)@ + silence(i as nat));
        }
    }

    /// Feeds one captured block to the queue, in capture order. Samples that
    /// find no free slot are dropped; the result says whether any was.
    pub fn feed_block(&mut self, block: &[u32]) -> (overrun: bool)
        requires
            old(self).wf(),
        ensures
            final(self).wf(),
            final(self).slots() == old(self).slots(),
            final(self)@ == after_feed(old(self)@, old(self).slots(), block@),
            overrun == overruns(old(self)@, old(self).slots(), block@),
    {
        let mut overrun = false;
        let mut i: usize = 0;
        while i < block.len()
            invariant
                i <= block@.len(),
                self.wf(),
                self.slots() == old(self).slots(),
                self@ == after_feed(old(self)@, old(self).slots(), block@.take(i as int)),
                overrun == overruns(old(self)@, old(self).slots(), block@.take(i as int)),
            decreases block@.len() - i,
        {
            let ghost fed = block@.take(i as int);
            let ghost next = block@.take(i + 1);
            let ghost count = accepted_count(old(self)@, old(self).slots(), fed);
            let ghost count_next = accepted_count(old(self)@, old(self).slots(), next);
            let r = ring_try_push(&mut self.ring, block[i]);
            overrun = mark_overrun(overrun, r);
            i = i + 1;
            proof {
                assert(next.take(count as int) =~= fed.take(count as int));
                if count_next > count {
                    assert(next.take(count_next as int) =~= fed.take(count as int).push(
                        block@[i - 1],
                    ));
                }
            }
        }
        assert(block@.take(i as int) =~= block@);
        overrun
    }

    /// Fills one output block from the queue, in order. Slots that find the
    /// queue empty are filled with silence; the result says whether any was.
    pub fn drain_block(&mut self, out: &mut [u32]) -> (underrun: bool)
        requires
            old(self).wf(),
        ensures
            final(self).wf(),
            final(self).slots() == old(self).slots(),
            final(out)@ == drained_block(old(self)@, old(out)@.len()),
            final(self)@ == after_drain(old(self)@, old(out)@.len()),
            underrun == underruns(old(self)@, old(out)@.len()),
    {
        let mut underrun = false;
        let mut i: usize = 0;
        let n = out.len();
        while i < n
            invariant
                i <= n,
                n == out@.len(),
                n == old(out)@.len(),
                self.wf(),
                self.slots() == old(self).slots(),
                self@ == after_drain(old(self)@, i as nat),
                underrun == underruns(old(self)@, i as nat),
                forall|slot: int| 0 <= slot < i ==> out@[slot] == played_sample(old(self)@, slot),
            decreases n - i,
        {
            let popped = ring_try_pop(&mut self.ring);
            let (sample, ran_dry) = playback_sample(popped);
            out[i] = sample;
            underrun = underrun || ran_dry;
            i = i + 1;
            assert(self@ =~= after_drain(old(self)@, i as nat));
        }
        assert(out@ =~= drained_block(old(self)@, n as nat));
        underrun
    }
}

} // verus!
