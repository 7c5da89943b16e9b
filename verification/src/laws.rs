//! What holds of the queue model whatever the samples are.

use vstd::prelude::*;
use crate::model::{
    after_drain, after_feed, after_pop, after_push, any_empty, any_refused, block_from_pops,
    drained_block, offered_samples, overruns, pop_outcome, push_outcome, queued_samples,
    silence, underruns, SILENCE,
};

verus! {

/// The results of `n` pops made one after another.
pub open spec fn pop_results(queue: Seq<u32>, n: nat) -> Seq<Option<u32>>
    decreases n,
{
    if n == 0 {
        Seq::empty()
    } else {
        seq![pop_outcome(queue)] + pop_results(after_pop(queue), (n - 1) as nat)
    }
}

/// The queue after `n` pops made one after another.
pub open spec fn after_pops(queue: Seq<u32>, n: nat) -> Seq<u32>
    decreases n,
{
    if n == 0 {
        queue
    } else {
        after_pops(after_pop(queue), (n - 1) as nat)
    }
}

/// The queue after the samples of `values` were pushed one after another.
pub open spec fn after_pushes(queue: Seq<u32>, capacity: nat, values: Seq<u32>) -> Seq<u32>
    decreases values.len(),
{
    if values.len() == 0 {
        queue
    } else {
        after_pushes(after_push(queue, capacity, values[0]), capacity, values.skip(1))
    }
}

/// What pop number `i` of a run returns: the queued sample at position `i`,
/// or `None` once the queue has run dry.
pub open spec fn expected_pop(queue: Seq<u32>, i: int) -> Option<u32> {
    if 0 <= i < queue.len() {
        Some(queue[i])
    } else {
        None
    }
}

/// A run of pops hands the queue out front to back, then reports it empty;
/// it leaves what a drain of as many slots leaves.
pub proof fn lemma_pops_walk_the_queue(queue: Seq<u32>, n: nat)
    ensures
        pop_results(queue, n) == Seq::new(n, |i: int| expected_pop(queue, i)),
        after_pops(queue, n) == after_drain(queue, n),
    decreases n,
{
    if n == 0 {
        assert(pop_results(queue, n) =~= Seq::new(n, |i: int| expected_pop(queue, i)));
        assert(after_pops(queue, n) =~= after_drain(queue, n));
    } else {
        let rest = after_pop(queue);
        lemma_pops_walk_the_queue(rest, (n - 1) as nat);
        assert(pop_results(queue, n) =~= Seq::new(n, |i: int| expected_pop(queue, i)));
        assert(after_pops(queue, n) =~= after_drain(queue, n));
    }
}

/// Pushing a run of samples that fits queues all of them, in order, behind
/// what was queued.
pub proof fn lemma_pushes_that_fit(queue: Seq<u32>, capacity: nat, values: Seq<u32>)
    requires
        queue.len() + values.len() <= capacity,
    ensures
        after_pushes(queue, capacity, values) == queue + values,
    decreases values.len(),
{
    if values.len() == 0 {
        assert(queue + values =~= queue);
    } else {
        lemma_pushes_that_fit(queue.push(values[0]), capacity, values.skip(1));
        assert(queue.push(values[0]) + values.skip(1) =~= queue + values);
    }
}

/// The pre-fill: a queue that holds `n` silent samples answers the next `n`
/// pops with silence each, and the pop after those with `None`.
pub proof fn lemma_prefill_pops(n: nat)
    ensures
        pop_results(silence(n), n + 1) == Seq::new(n, |i: int| Some(SILENCE)).push(None),
        after_pops(silence(n), n) == Seq::<u32>::empty(),
{
    lemma_pops_walk_the_queue(silence(n), n + 1);
    lemma_pops_walk_the_queue(silence(n), n);
    assert(pop_results(silence(n), n + 1) =~= Seq::new(n, |i: int| Some(SILENCE)).push(None));
    assert(after_pops(silence(n), n) =~= Seq::<u32>::empty());
}

/// First in, first out: after a run of samples that fits was pushed onto an
/// empty queue, as many pops return exactly those samples in the order they
/// were pushed, and leave the queue empty.
pub proof fn lemma_fifo_order(capacity: nat, values: Seq<u32>)
    requires
        values.len() <= capacity,
    ensures
        pop_results(after_pushes(Seq::empty(), capacity, values), values.len()) == Seq::new(
            values.len(),
            |i: int| Some(values[i]),
        ),
        after_pops(after_pushes(Seq::empty(), capacity, values), values.len()) == Seq::<
            u32,
        >::empty(),
{
    lemma_fifo_order_behind(Seq::empty(), capacity, values);
    assert(Seq::<u32>::empty() + values =~= values);
}

/// First in, first out, with samples already queued: pops return what was
/// queued first, then the pushed samples, each run in its own order.
pub proof fn lemma_fifo_order_behind(queue: Seq<u32>, capacity: nat, values: Seq<u32>)
    requires
        queue.len() + values.len() <= capacity,
    ensures
        pop_results(
            after_pushes(queue, capacity, values),
            queue.len() + values.len(),
        ) == Seq::new(queue.len() + values.len(), |i: int| Some((queue + values)[i])),
        after_pops(after_pushes(queue, capacity, values), queue.len() + values.len())
            == Seq::<u32>::empty(),
{
    let all = queue + values;
    lemma_pushes_that_fit(queue, capacity, values);
    lemma_pops_walk_the_queue(all, all.len());
    assert(pop_results(all, all.len()) =~= Seq::new(all.len(), |i: int| Some(all[i])));
    assert(after_pops(all, all.len()) =~= Seq::<u32>::empty());
}

/// Overrun: a full queue refuses one more sample, hands it back, and keeps
/// its samples unchanged and in order.
pub proof fn lemma_overrun_keeps_queue(queue: Seq<u32>, capacity: nat, sample: u32)
    requires
        queue.len() == capacity,
    ensures
        push_outcome(queue, capacity, sample) == Err::<(), u32>(sample),
        after_push(queue, capacity, sample) == queue,
{
}

/// Overrun of a block: a full queue drops every sample of a block fed to it,
/// and the overrun is flagged whenever the block holds a sample.
pub proof fn lemma_overrun_drops_block(queue: Seq<u32>, capacity: nat, block: Seq<u32>)
    requires
        queue.len() == capacity,
    ensures
        after_feed(queue, capacity, block) == queue,
        overruns(queue, capacity, block) == (block.len() > 0),
{
    assert(after_feed(queue, capacity, block) =~= queue);
}

/// Feeding a block is pushing its samples one after another.
pub proof fn lemma_feed_is_pushes(queue: Seq<u32>, capacity: nat, block: Seq<u32>)
    requires
        queue.len() <= capacity,
    ensures
        after_feed(queue, capacity, block) == after_pushes(queue, capacity, block),
    decreases block.len(),
{
    if block.len() == 0 {
        assert(after_feed(queue, capacity, block) =~= queue);
    } else {
        let next = after_push(queue, capacity, block[0]);
        lemma_feed_is_pushes(next, capacity, block.skip(1));
        assert(after_feed(queue, capacity, block) =~= after_feed(next, capacity, block.skip(1)));
    }
}

/// Underrun: an empty queue fills a block of any length with silence and
/// stays empty, and the underrun is flagged whenever the block has a slot.
pub proof fn lemma_underrun_plays_silence(len: nat)
    ensures
        drained_block(Seq::empty(), len) == silence(len),
        after_drain(Seq::empty(), len) == Seq::<u32>::empty(),
        underruns(Seq::empty(), len) == (len > 0),
{
    assert(drained_block(Seq::empty(), len) =~= silence(len));
    assert(after_drain(Seq::empty(), len) =~= Seq::<u32>::empty());
}

/// A drain that stays within what is queued plays exactly the oldest samples
/// and flags no underrun.
pub proof fn lemma_drain_within_queue(queue: Seq<u32>, len: nat)
    requires
        len <= queue.len(),
    ensures
        drained_block(queue, len) == queue.take(len as int),
        after_drain(queue, len) == queue.skip(len as int),
        !underruns(queue, len),
{
    assert(drained_block(queue, len) =~= queue.take(len as int));
}

/// Draining in two blocks plays what draining in one block plays.
pub proof fn lemma_drain_in_blocks(queue: Seq<u32>, first: nat, second: nat)
    ensures
        drained_block(queue, first + second) == drained_block(queue, first) + drained_block(
            after_drain(queue, first),
            second,
        ),
        after_drain(queue, first + second) == after_drain(after_drain(queue, first), second),
        underruns(queue, first + second) == (underruns(queue, first) || underruns(
            after_drain(queue, first),
            second,
        )),
{
    assert(drained_block(queue, first + second) =~= drained_block(queue, first) + drained_block(
        after_drain(queue, first),
        second,
    ));
    assert(after_drain(queue, first + second) =~= after_drain(
        after_drain(queue, first),
        second,
    ));
}

/// The delay: a block fed to a queue that holds only its pre-filled silence,
/// with room for the block, is played back whole and in order right after
/// that silence, with neither an overrun nor an underrun.
pub proof fn lemma_block_is_delayed_by_the_prefill(latency: nat, capacity: nat, block: Seq<u32>)
    requires
        latency + block.len() <= capacity,
    ensures
        !overruns(silence(latency), capacity, block),
        after_feed(silence(latency), capacity, block) == silence(latency) + block,
        drained_block(silence(latency) + block, latency + block.len()) == silence(latency)
            + block,
        !underruns(silence(latency) + block, latency + block.len()),
        after_drain(silence(latency) + block, latency + block.len()) == Seq::<u32>::empty(),
{
    let queued = silence(latency) + block;
    assert(after_feed(silence(latency), capacity, block) =~= queued);
    lemma_drain_within_queue(queued, queued.len());
    assert(queued.take(queued.len() as int) =~= queued);
    assert(queued.skip(queued.len() as int) =~= Seq::<u32>::empty());
}

/// What two runs of pushes queued, one after the other, is what the first
/// queued followed by what the second queued.
pub proof fn lemma_queued_samples_of_runs(first: Seq<(u32, bool)>, second: Seq<(u32, bool)>)
    ensures
        queued_samples(first + second) == queued_samples(first) + queued_samples(second),
    decreases second.len(),
{
    if second.len() == 0 {
        assert(first + second =~= first);
        assert(queued_samples(first) + queued_samples(second) =~= queued_samples(first));
    } else {
        lemma_queued_samples_of_runs(first, second.drop_last());
        assert((first + second).drop_last() =~= first + second.drop_last());
        assert((first + second).last() == second.last());
        if second.last().1 {
            assert(queued_samples(first + second) =~= queued_samples(first) + queued_samples(
                second,
            ));
        }
    }
}

/// A run of pushes queues no more samples than it offered; it queues all of
/// them, in order, exactly when none was refused.
pub proof fn lemma_queued_samples_of_offers(offers: Seq<(u32, bool)>)
    ensures
        queued_samples(offers).len() <= offers.len(),
        !any_refused(offers) ==> queued_samples(offers) == offered_samples(offers),
        any_refused(offers) ==> queued_samples(offers).len() < offers.len(),
    decreases offers.len(),
{
    if offers.len() == 0 {
        assert(queued_samples(offers) =~= offered_samples(offers));
    } else {
        let rest = offers.drop_last();
        lemma_queued_samples_of_offers(rest);
        if any_refused(rest) {
            let i = choose|i: int| 0 <= i < rest.len() && !rest[i].1;
            assert(!offers[i].1);
        }
        if !offers.last().1 {
            assert(!offers[offers.len() - 1].1);
        }
        if any_refused(offers) {
            let i = choose|i: int| 0 <= i < offers.len() && !offers[i].1;
            if i < rest.len() {
                assert(!rest[i].1);
            }
        } else {
            assert(offered_samples(rest).push(offers.last().0) =~= offered_samples(offers));
        }
    }
}

/// A block filled by pops that all found the queue empty is silence
/// throughout, and the underrun is flagged whenever the block has a slot.
pub proof fn lemma_empty_pops_play_silence(pops: Seq<Option<u32>>)
    requires
        forall|slot: int| 0 <= slot < pops.len() ==> pops[slot] is None,
    ensures
        block_from_pops(pops) == silence(pops.len()),
        any_empty(pops) == (pops.len() > 0),
{
    assert(block_from_pops(pops) =~= silence(pops.len()));
    if pops.len() > 0 {
        assert(pops[0] is None);
    }
}

/// Draining a block is popping once for each of its slots: the block holds
/// what the pops returned, with silence where a pop found the queue empty,
/// and the underrun is flagged exactly when one did.
pub proof fn lemma_drain_is_pops(queue: Seq<u32>, len: nat)
    ensures
        drained_block(queue, len) == block_from_pops(pop_results(queue, len)),
        after_drain(queue, len) == after_pops(queue, len),
        underruns(queue, len) == any_empty(pop_results(queue, len)),
{
    let pops = pop_results(queue, len);
    lemma_pops_walk_the_queue(queue, len);
    assert(drained_block(queue, len) =~= block_from_pops(pops));
    if underruns(queue, len) {
        assert(pops[queue.len() as int] is None);
    }
}

} // verus!
