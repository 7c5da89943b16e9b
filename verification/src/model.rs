//! The mathematical model of the latency buffer: a queue is the sequence of
//! samples it holds, oldest first, together with its slot count.

use vstd::prelude::*;

verus! {

/// The bit pattern of a zero amplitude.
pub const SILENCE: u32 = 0;

/// The largest slot count a queue can be created with. Four bytes a sample,
/// it keeps the backing store within what one allocation may hold on any
/// machine.
pub const MAX_CAPACITY: usize = 0x1FFF_FFFF;

/// A run of `n` silent samples.
pub open spec fn silence(n: nat) -> Seq<u32> {
    Seq::new(n, |i: int| SILENCE)
}

/// What a push leaves in a queue of `capacity` slots holding `queue`: the
/// sample goes behind everything queued when a slot is free, and is dropped
/// when none is.
pub open spec fn after_push(queue: Seq<u32>, capacity: nat, sample: u32) -> Seq<u32> {
    if queue.len() < capacity {
        queue.push(sample)
    } else {
        queue
    }
}

/// What a push reports: success when a slot is free, else the sample back.
pub open spec fn push_outcome(queue: Seq<u32>, capacity: nat, sample: u32) -> Result<(), u32> {
    if queue.len() < capacity {
        Ok(())
    } else {
        Err(sample)
    }
}

/// What a pop leaves behind: everything but the oldest sample.
pub open spec fn after_pop(queue: Seq<u32>) -> Seq<u32> {
    if queue.len() > 0 {
        queue.skip(1)
    } else {
        queue
    }
}

/// What a pop returns: the oldest sample, or `None` from an empty queue.
pub open spec fn pop_outcome(queue: Seq<u32>) -> Option<u32> {
    if queue.len() > 0 {
        Some(queue[0])
    } else {
        None
    }
}

/// How many samples of a captured block find a free slot.
pub open spec fn accepted_count(queue: Seq<u32>, capacity: nat, block: Seq<u32>) -> nat {
    if queue.len() >= capacity {
        0
    } else if block.len() <= capacity - queue.len() {
        block.len()
    } else {
        (capacity - queue.len()) as nat
    }
}

/// The queue after a captured block was fed to it: the samples that fit are
/// queued in capture order, the newest ones beyond that are dropped.
pub open spec fn after_feed(queue: Seq<u32>, capacity: nat, block: Seq<u32>) -> Seq<u32> {
    queue + block.take(accepted_count(queue, capacity, block) as int)
}

/// Whether feeding a block overruns the queue: some sample finds no slot.
pub open spec fn overruns(queue: Seq<u32>, capacity: nat, block: Seq<u32>) -> bool {
    accepted_count(queue, capacity, block) < block.len()
}

/// The sample played in output slot `slot` of a block drained from `queue`:
/// the queued sample at that position, or silence once the queue has run dry.
pub open spec fn played_sample(queue: Seq<u32>, slot: int) -> u32 {
    if 0 <= slot < queue.len() {
        queue[slot]
    } else {
        SILENCE
    }
}

/// The output block of `len` samples drained from `queue`.
pub open spec fn drained_block(queue: Seq<u32>, len: nat) -> Seq<u32> {
    Seq::new(len, |slot: int| played_sample(queue, slot))
}

/// How many samples a drain of `len` output slots takes out of the queue.
pub open spec fn drained_count(queue: Seq<u32>, len: nat) -> nat {
    if len <= queue.len() {
        len
    } else {
        queue.len()
    }
}

/// The queue after `len` output slots were drained from it.
pub open spec fn after_drain(queue: Seq<u32>, len: nat) -> Seq<u32> {
    queue.skip(drained_count(queue, len) as int)
}

/// Whether draining `len` output slots underruns the queue: some slot finds
/// it empty.
pub open spec fn underruns(queue: Seq<u32>, len: nat) -> bool {
    len > queue.len()
}

/// The free slots the producing end can still count on after it offered
/// `offered` samples, whatever the consuming end did meanwhile.
pub open spec fn room_after_feed(room: nat, offered: nat) -> nat {
    if offered <= room {
        (room - offered) as nat
    } else {
        0
    }
}

/// Whether a push was accepted where a slot was certain to be free.
pub open spec fn accepted_where_owed(room: nat, r: Result<(), u32>) -> bool {
    room > 0 ==> r is Ok
}

/// Whether a pop handed out the oldest sample where one was certain to be
/// queued.
pub open spec fn popped_where_owed(backlog: Seq<u32>, r: Option<u32>) -> bool {
    backlog.len() > 0 ==> r == Some(backlog[0])
}

/// The record of one push made by the producing end: the sample that was
/// offered, and whether it was accepted.
pub open spec fn offer_record(sample: u32, r: Result<(), u32>) -> (u32, bool) {
    (sample, r is Ok)
}

/// What was added to a record that only grows: the part of `after` behind
/// what `before` already held.
pub open spec fn added<A>(before: Seq<A>, after: Seq<A>) -> Seq<A> {
    after.skip(before.len() as int)
}

/// The samples that a run of pushes offered, in the order they were offered.
pub open spec fn offered_samples(offers: Seq<(u32, bool)>) -> Seq<u32> {
    Seq::new(offers.len(), |i: int| offers[i].0)
}

/// Whether some push of a run was refused.
pub open spec fn any_refused(offers: Seq<(u32, bool)>) -> bool {
    exists|i: int| 0 <= i < offers.len() && !offers[i].1
}

/// The samples that a run of pushes queued: those that were accepted, in
/// the order they were offered.
pub open spec fn queued_samples(offers: Seq<(u32, bool)>) -> Seq<u32>
    decreases offers.len(),
{
    if offers.len() == 0 {
        Seq::empty()
    } else if offers.last().1 {
        queued_samples(offers.drop_last()).push(offers.last().0)
    } else {
        queued_samples(offers.drop_last())
    }
}

/// The output block that a run of pops gives: slot by slot the popped sample,
/// or silence where the pop found the queue empty.
pub open spec fn block_from_pops(pops: Seq<Option<u32>>) -> Seq<u32> {
    Seq::new(
        pops.len(),
        |slot: int|
            match pops[slot] {
                Some(sample) => sample,
                None => SILENCE,
            },
    )
}

/// Whether some pop of a run found the queue empty.
pub open spec fn any_empty(pops: Seq<Option<u32>>) -> bool {
    exists|slot: int| 0 <= slot < pops.len() && pops[slot] is None
}

} // verus!
