//! The lock-free ring buffer this library is built on, and what is taken on
//! trust about it.

use vstd::prelude::*;
use crate::model::{
    accepted_where_owed, after_pop, after_push, offer_record, pop_outcome, popped_where_owed,
    push_outcome, room_after_feed, MAX_CAPACITY,
};

verus! {

/// An unsplit `ringbuf::HeapRb` of 32-bit samples. The buffer's type is
/// bounded by traits of its own crate, so it is held behind this opaque
/// struct and reached only through the functions below.
#[verifier::external_body]
pub struct Ring {
    inner: ringbuf::HeapRb<u32>,
}

/// The samples an unsplit ring buffer holds, oldest first.
pub uninterp spec fn ring_contents(rb: Ring) -> Seq<u32>;

/// The number of slots an unsplit ring buffer was created with.
pub uninterp spec fn ring_capacity(rb: Ring) -> nat;

/// `HeapRb::new`: a ring buffer with exactly `capacity` slots and nothing in
/// it. The constructor panics on a zero capacity and when the allocation is
/// larger than the address space allows, so both are excluded.
#[verifier::external_body]
pub(crate) fn ring_new(capacity: usize) -> (rb: Ring)
    requires
        0 < capacity <= MAX_CAPACITY,
    ensures
        ring_contents(rb) == Seq::<u32>::empty(),
        ring_capacity(rb) == capacity,
{
    Ring { inner: ringbuf::HeapRb::<u32>::new(capacity) }
}

/// `Producer::try_push` on the unsplit buffer: when a slot is free the sample
/// is appended behind everything already queued; when none is free the buffer
/// is left as it was and the sample is handed back. The capacity never
/// changes.
#[verifier::external_body]
pub(crate) fn ring_try_push(rb: &mut Ring, sample: u32) -> (r: Result<(), u32>)
    ensures
        r == push_outcome(ring_contents(*old(rb)), ring_capacity(*old(rb)), sample),
        ring_contents(*final(rb)) == after_push(
            ring_contents(*old(rb)),
            ring_capacity(*old(rb)),
            sample,
        ),
        ring_capacity(*final(rb)) == ring_capacity(*old(rb)),
{
    ringbuf::traits::Producer::try_push(&mut rb.inner, sample)
}

/// `Consumer::try_pop` on the unsplit buffer: the oldest sample leaves and is
/// returned; an empty buffer yields `None` and stays empty. The capacity
/// never changes.
#[verifier::external_body]
pub(crate) fn ring_try_pop(rb: &mut Ring) -> (r: Option<u32>)
    ensures
        r == pop_outcome(ring_contents(*old(rb))),
        ring_contents(*final(rb)) == after_pop(ring_contents(*old(rb))),
        ring_capacity(*final(rb)) == ring_capacity(*old(rb)),
{
    ringbuf::traits::Consumer::try_pop(&mut rb.inner)
}

/// `Observer::occupied_len` on the unsplit buffer: how many samples are
/// queued.
#[verifier::external_body]
pub(crate) fn ring_len(rb: &Ring) -> (n: usize)
    ensures
        n == ring_contents(*rb).len(),
{
    ringbuf::traits::Observer::occupied_len(&rb.inner)
}

/// `Observer::capacity` on the unsplit buffer: the slot count it was made
/// with.
#[verifier::external_body]
pub(crate) fn ring_slots(rb: &Ring) -> (n: usize)
    ensures
        n == ring_capacity(*rb),
{
    ringbuf::traits::Observer::capacity(&rb.inner).get()
}

/// The producing end of a split `ringbuf::HeapRb`. The consuming end may
/// run at the same time, so what the buffer holds at a given moment is not
/// modelled; what is modelled is the part that the other end cannot undo.
#[verifier::external_body]
pub struct RingProducer {
    inner: ringbuf::HeapProd<u32>,
}

/// The consuming end of a split `ringbuf::HeapRb`.
#[verifier::external_body]
pub struct RingConsumer {
    inner: ringbuf::HeapCons<u32>,
}

/// The free slots a producing end can count on: those that were free when
/// the buffer was split, less one for each sample offered since. The
/// consuming end only ever frees slots, so at least this many are free.
pub uninterp spec fn producer_room(producer: RingProducer) -> nat;

/// The samples a consuming end can count on: those that were queued when the
/// buffer was split and have not been popped since, oldest first. The
/// producing end only ever queues behind them.
pub uninterp spec fn consumer_backlog(consumer: RingConsumer) -> Seq<u32>;

/// The pushes a producing end has made since the buffer was split, in the
/// order they were made: for each the sample that was offered, and whether
/// it was accepted and so written behind everything queued before it.
pub uninterp spec fn producer_offers(producer: RingProducer) -> Seq<(u32, bool)>;

/// The results of the pops a consuming end has made since the buffer was
/// split, in the order they were made.
pub uninterp spec fn consumer_pops(consumer: RingConsumer) -> Seq<Option<u32>>;

/// `Split::split`: turns the buffer into its one producing and one consuming
/// end. Both ends are created on the buffer as it stands: the producing end
/// starts with the slots that are free, the consuming end with the samples
/// that are queued. Neither has pushed or popped anything yet.
#[verifier::external_body]
pub(crate) fn ring_split(rb: Ring) -> (ends: (RingProducer, RingConsumer))
    ensures
        producer_room(ends.0) + ring_contents(rb).len() == ring_capacity(rb),
        producer_offers(ends.0) == Seq::<(u32, bool)>::empty(),
        consumer_backlog(ends.1) == ring_contents(rb),
        consumer_pops(ends.1) == Seq::<Option<u32>>::empty(),
{
    let (producer, consumer) = ringbuf::traits::Split::split(rb.inner);
    (RingProducer { inner: producer }, RingConsumer { inner: consumer })
}

/// Whether a push either succeeded or handed back the very sample offered.
pub open spec fn hands_back(r: Result<(), u32>, sample: u32) -> bool {
    match r {
        Ok(_) => true,
        Err(refused) => refused == sample,
    }
}

/// `Producer::try_push` on the producing end: a refused sample comes back
/// unchanged, and the push is accepted whenever the buffer is not full. It
/// is not full while a slot that was free at the split is still unused;
/// beyond those slots the outcome depends on the consumer and is left open.
/// Whatever the outcome, this one push of `sample` is what the call adds to
/// the pushes the end has made; the sample is written exactly when the
/// result is `Ok`.
#[verifier::external_body]
pub(crate) fn producer_try_push(producer: &mut RingProducer, sample: u32) -> (r: Result<(), u32>)
    ensures
        hands_back(r, sample),
        accepted_where_owed(producer_room(*old(producer)), r),
        producer_room(*final(producer)) == room_after_feed(producer_room(*old(producer)), 1),
        producer_offers(*final(producer)) == producer_offers(*old(producer)).push(
            offer_record(sample, r),
        ),
{
    ringbuf::traits::Producer::try_push(&mut producer.inner, sample)
}

/// `Consumer::try_pop` on the consuming end: the oldest queued sample is
/// removed and returned. While samples from before the split are queued, the
/// oldest of them is the one; once they are gone the result depends on the
/// producer and is left open. Whatever the result, this one pop is what the
/// call adds to the pops the end has made.
#[verifier::external_body]
pub(crate) fn consumer_try_pop(consumer: &mut RingConsumer) -> (r: Option<u32>)
    ensures
        popped_where_owed(consumer_backlog(*old(consumer)), r),
        consumer_backlog(*final(consumer)) == after_pop(consumer_backlog(*old(consumer))),
        consumer_pops(*final(consumer)) == consumer_pops(*old(consumer)).push(r),
{
    ringbuf::traits::Consumer::try_pop(&mut consumer.inner)
}

} // verus!
