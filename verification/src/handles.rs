//! The two ends of a split queue, one for the capture callback and one for
//! the playback callback.

use vstd::prelude::*;
use crate::laws::{lemma_queued_samples_of_offers, lemma_queued_samples_of_runs};
use crate::model::{
    added, after_drain, any_empty, any_refused, block_from_pops, drained_block, offer_record,
    offered_samples, queued_samples, room_after_feed, SILENCE,
};
use crate::queue::SampleQueue;
use crate::ring::{
    consumer_backlog, consumer_pops, consumer_try_pop, producer_offers, producer_room,
    producer_try_push, ring_split, RingConsumer, RingProducer,
};

verus! {

/// Folds the outcome of one push into a block's overrun flag: the flag is
/// raised by the first refused sample and stays raised.
pub fn mark_overrun(overrun: bool, outcome: Result<(), u32>) -> (r: bool)
    ensures
        r == (overrun || outcome is Err),
{
    match outcome {
        Ok(()) => overrun,
        Err(_) => true,
    }
}

/// Decides what goes into one output slot: the popped sample, or silence
/// together with the underrun mark when the queue was empty.
pub fn playback_sample(popped: Option<u32>) -> (r: (u32, bool))
    ensures
        r.0 == (match popped {
            Some(sample) => sample,
            None => SILENCE,
        }),
        r.1 == (popped is None),
{
    match popped {
        Some(sample) => (sample, false),
        None => (SILENCE, true),
    }
}

/// The producing end of a split queue, held by the capture callback.
pub struct CaptureFeeder {
    producer: RingProducer,
}

/// The consuming end of a split queue, held by the playback callback.
pub struct PlaybackDrainer {
    consumer: RingConsumer,
}

impl SampleQueue {
    /// Splits the queue into its one producing and one consuming end. Each
    /// end is moved into its callback; neither can be copied. The feeder
    /// starts with the queue's free slots as its room, the drainer with the
    /// queued samples as its backlog. Neither has pushed or popped yet.
    pub fn split(self) -> (ends: (CaptureFeeder, PlaybackDrainer))
        ensures
            ends.0.room() + self@.len() == self.slots(),
            ends.0.offers() == Seq::<(u32, bool)>::empty(),
            ends.1.backlog() == self@,
            ends.1.pops() == Seq::<Option<u32>>::empty(),
    {
        let (producer, consumer) = ring_split(self.into_ring());
        (CaptureFeeder { producer }, PlaybackDrainer { consumer })
    }
}

impl CaptureFeeder {
    /// The free slots this end can count on whatever the drainer does: those
    /// that were free when the queue was split, less one for each sample
    /// offered since.
    pub closed spec fn room(&self) -> nat {
        producer_room(self.producer)
    }

    /// The pushes this end has made since the queue was split, in order:
    /// for each the sample offered and whether the queue accepted it.
    pub closed spec fn offers(&self) -> Seq<(u32, bool)> {
        producer_offers(self.producer)
    }

    /// The samples this end has queued since the queue was split: those of
    /// its pushes that were accepted, in order.
    pub open spec fn queued(&self) -> Seq<u32> {
        queued_samples(self.offers())
    }

    /// Offers every sample of a captured block to the queue, in capture
    /// order: one push for each sample, none retried, so a sample that finds
    /// no free slot is dropped. The result is the block's overrun flag:
    /// raised exactly when one of these pushes was refused. What the call
    /// queues are the accepted samples, in order: the whole block when the
    /// flag is not raised, fewer when it is. A block that fits into the
    /// feeder's room is queued whole and raises no flag; each sample offered
    /// uses up one slot of the room. Beyond the room, which pushes are
    /// accepted depends on how fast the other end drains.
    pub fn feed(&mut self, block: &[u32]) -> (overrun: bool)
        ensures
            final(self).room() == room_after_feed(old(self).room(), block@.len()),
            block@.len() <= old(self).room() ==> !overrun,
            old(self).offers().is_prefix_of(final(self).offers()),
            offered_samples(added(old(self).offers(), final(self).offers())) == block@,
            overrun == any_refused(added(old(self).offers(), final(self).offers())),
            final(self).queued() == old(self).queued() + queued_samples(
                added(old(self).offers(), final(self).offers()),
            ),
            !overrun ==> final(self).queued() == old(self).queued() + block@,
            overrun ==> final(self).queued().len() < old(self).queued().len() + block@.len(),
    {
        let mut overrun = false;
        let mut i: usize = 0;
        let ghost mut run: Seq<(u32, bool)> = Seq::empty();
        while i < block.len()
            invariant
                i <= block@.len(),
                self.room() == room_after_feed(old(self).room(), i as nat),
                i <= old(self).room() ==> !overrun,
                run.len() == i,
                self.offers() == old(self).offers() + run,
                offered_samples(run) == block@.take(i as int),
                overrun == any_refused(run),
            decreases block@.len() - i,
        {
            let outcome = producer_try_push(&mut self.producer, block[i]);
            let ghost before = run;
            proof {
                run = run.push(offer_record(block@[i as int], outcome));
                assert(self.offers() =~= old(self).offers() + run);
                assert(offered_samples(run) =~= block@.take(i + 1));
                if any_refused(before) {
                    let j = choose|j: int| 0 <= j < before.len() && !before[j].1;
                    assert(!run[j].1);
                }
                if outcome is Err {
                    assert(!run[i as int].1);
                }
                if any_refused(run) {
                    let j = choose|j: int| 0 <= j < run.len() && !run[j].1;
                    if j < i {
                        assert(!before[j].1);
                    }
                }
            }
            overrun = mark_overrun(overrun, outcome);
            i = i + 1;
        }
        proof {
            assert(block@.take(i as int) =~= block@);
            assert(added(old(self).offers(), self.offers()) =~= run);
            lemma_queued_samples_of_runs(old(self).offers(), run);
            lemma_queued_samples_of_offers(run);
        }
        overrun
    }
}

impl PlaybackDrainer {
    /// The samples this end can count on whatever the feeder does: those
    /// that were queued when the queue was split and have not been drained
    /// since, oldest first.
    pub closed spec fn backlog(&self) -> Seq<u32> {
        consumer_backlog(self.consumer)
    }

    /// The results of the pops this end has made since the queue was split,
    /// in order.
    pub closed spec fn pops(&self) -> Seq<Option<u32>> {
        consumer_pops(self.consumer)
    }

    /// Fills every slot of an output block, in order, with one pop each: the
    /// popped sample, or silence where the queue was empty. The result is the
    /// block's underrun flag: raised exactly when one of these pops found
    /// the queue empty. The drainer's backlog is played first and in order,
    /// and a block that the backlog covers raises no flag. Past the backlog,
    /// what the pops return depends on the other end, so the contract speaks
    /// of the pops that the call made.
    pub fn drain(&mut self, out: &mut [u32]) -> (underrun: bool)
        ensures
            final(out)@.len() == old(out)@.len(),
            final(self).backlog() == after_drain(old(self).backlog(), old(out)@.len()),
            forall|slot: int|
                0 <= slot < old(out)@.len() && slot < old(self).backlog().len()
                    ==> final(out)@[slot] == old(self).backlog()[slot],
            old(out)@.len() <= old(self).backlog().len() ==> !underrun && final(out)@
                == drained_block(old(self).backlog(), old(out)@.len()),
            old(self).pops().is_prefix_of(final(self).pops()),
            added(old(self).pops(), final(self).pops()).len() == old(out)@.len(),
            final(out)@ == block_from_pops(added(old(self).pops(), final(self).pops())),
            underrun == any_empty(added(old(self).pops(), final(self).pops())),
    {
        let mut underrun = false;
        let mut i: usize = 0;
        let n = out.len();
        let ghost mut pops: Seq<Option<u32>> = Seq::empty();
        while i < n
            invariant
                i <= n,
                n == out@.len(),
                n == old(out)@.len(),
                pops.len() == i,
                self.pops() == old(self).pops() + pops,
                underrun == any_empty(pops),
                self.backlog() == after_drain(old(self).backlog(), i as nat),
                i <= old(self).backlog().len() ==> !underrun,
                forall|slot: int|
                    0 <= slot < i && slot < old(self).backlog().len()
                        ==> out@[slot] == old(self).backlog()[slot],
                forall|slot: int| 0 <= slot < i ==> out@[slot] == block_from_pops(pops)[slot],
            decreases n - i,
        {
            let popped = consumer_try_pop(&mut self.consumer);
            let (sample, ran_dry) = playback_sample(popped);
            out[i] = sample;
            let ghost before = pops;
            proof {
                pops = pops.push(popped);
                assert(self.pops() =~= old(self).pops() + pops);
                if any_empty(before) {
                    let slot = choose|slot: int| 0 <= slot < before.len() && before[slot] is None;
                    assert(pops[slot] is None);
                }
                if ran_dry {
                    assert(pops[i as int] is None);
                }
                if any_empty(pops) {
                    let slot = choose|slot: int| 0 <= slot < pops.len() && pops[slot] is None;
                    if slot < i {
                        assert(before[slot] is None);
                    }
                }
                assert forall|slot: int| 0 <= slot < i implies block_from_pops(before)[slot]
                    == block_from_pops(pops)[slot] by {
                    assert(pops[slot] == before[slot]);
                }
            }
            underrun = underrun || ran_dry;
            i = i + 1;
        }
        assert(out@ =~= block_from_pops(pops));
        proof {
            assert(added(old(self).pops(), self.pops()) =~= pops);
            if n as nat <= old(self).backlog().len() {
                assert(out@ =~= drained_block(old(self).backlog(), n as nat));
            }
        }
        underrun
    }
}

} // verus!
