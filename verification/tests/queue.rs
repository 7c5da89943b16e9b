use audio_loopback::model::{MAX_CAPACITY, SILENCE};
use audio_loopback::queue::{Full, SampleQueue};

#[test]
fn new_queue_is_empty() {
    let mut queue = SampleQueue::new(4);
    assert_eq!(queue.capacity(), 4);
    assert_eq!(queue.len(), 0);
    assert_eq!(queue.free_len(), 4);
    assert!(queue.is_empty());
    assert!(!queue.is_full());
    assert_eq!(queue.pop(), None);
}

#[test]
fn single_slot_queue() {
    let mut queue = SampleQueue::new(1);
    assert_eq!(queue.push(7), Ok(()));
    assert!(queue.is_full());
    assert_eq!(queue.push(8), Err(Full));
    assert_eq!(queue.pop(), Some(7));
    assert_eq!(queue.pop(), None);
}

#[test]
fn push_then_pop_keeps_order() {
    let mut queue = SampleQueue::new(8);
    let values: Vec<u32> = vec![11, 22, 33, 44, 55];
    for v in values.iter() {
        assert_eq!(queue.push(*v), Ok(()));
    }
    assert_eq!(queue.len(), 5);
    assert_eq!(queue.free_len(), 3);
    for v in values.iter() {
        assert_eq!(queue.pop(), Some(*v));
    }
    assert_eq!(queue.pop(), None);
    assert_eq!(queue.len(), 0);
}

#[test]
fn order_survives_wrapping_around() {
    let mut queue = SampleQueue::new(3);
    let mut next_in: u32 = 1;
    let mut next_out: u32 = 1;
    for _ in 0..10 {
        assert_eq!(queue.push(next_in), Ok(()));
        next_in += 1;
        assert_eq!(queue.push(next_in), Ok(()));
        next_in += 1;
        assert_eq!(queue.pop(), Some(next_out));
        next_out += 1;
        assert_eq!(queue.pop(), Some(next_out));
        next_out += 1;
    }
    assert!(queue.is_empty());
}

#[test]
fn full_queue_refuses_and_keeps_its_samples() {
    let mut queue = SampleQueue::new(4);
    for v in [1u32, 2, 3, 4] {
        assert_eq!(queue.push(v), Ok(()));
    }
    assert!(queue.is_full());
    assert_eq!(queue.free_len(), 0);
    assert_eq!(queue.push(5), Err(Full));
    assert_eq!(queue.len(), 4);
    for v in [1u32, 2, 3, 4] {
        assert_eq!(queue.pop(), Some(v));
    }
    assert_eq!(queue.pop(), None);
}

#[test]
fn fill_with_silence_queues_zeros() {
    let mut queue = SampleQueue::new(6);
    queue.fill_with_silence(3);
    assert_eq!(queue.len(), 3);
    assert_eq!(queue.free_len(), 3);
    for _ in 0..3 {
        assert_eq!(queue.pop(), Some(SILENCE));
    }
    assert_eq!(queue.pop(), None);
}

#[test]
fn fill_with_silence_goes_behind_queued_samples() {
    let mut queue = SampleQueue::new(4);
    assert_eq!(queue.push(9), Ok(()));
    queue.fill_with_silence(2);
    assert_eq!(queue.pop(), Some(9));
    assert_eq!(queue.pop(), Some(0));
    assert_eq!(queue.pop(), Some(0));
    assert_eq!(queue.pop(), None);
}

#[test]
fn fill_with_no_silence_changes_nothing() {
    let mut queue = SampleQueue::new(2);
    queue.fill_with_silence(0);
    assert!(queue.is_empty());
}

#[test]
fn silence_is_the_zero_amplitude() {
    assert_eq!(SILENCE, 0.0f32.to_bits());
    assert_eq!(f32::from_bits(SILENCE), 0.0);
}

#[test]
fn samples_pass_through_unmodified() {
    let mut queue = SampleQueue::new(4);
    let amplitudes = [0.25f32, -1.0, f32::MAX, -0.0];
    for a in amplitudes {
        assert_eq!(queue.push(a.to_bits()), Ok(()));
    }
    for a in amplitudes {
        assert_eq!(queue.pop(), Some(a.to_bits()));
    }
}

#[test]
fn feed_block_that_fits() {
    let mut queue = SampleQueue::new(8);
    assert!(!queue.feed_block(&[1, 2, 3]));
    assert!(!queue.feed_block(&[4, 5]));
    assert_eq!(queue.len(), 5);
    for v in 1u32..=5 {
        assert_eq!(queue.pop(), Some(v));
    }
}

#[test]
fn feed_block_drops_the_newest_on_overrun() {
    let mut queue = SampleQueue::new(4);
    assert!(!queue.feed_block(&[1, 2]));
    assert!(queue.feed_block(&[3, 4, 5, 6]));
    assert_eq!(queue.len(), 4);
    let mut out = [99u32; 4];
    assert!(!queue.drain_block(&mut out));
    assert_eq!(out, [1, 2, 3, 4]);
}

#[test]
fn feed_block_into_full_queue_changes_nothing() {
    let mut queue = SampleQueue::new(2);
    assert!(!queue.feed_block(&[1, 2]));
    assert!(queue.feed_block(&[3]));
    assert_eq!(queue.pop(), Some(1));
    assert_eq!(queue.pop(), Some(2));
    assert_eq!(queue.pop(), None);
}

#[test]
fn feed_empty_block_never_overruns() {
    let mut queue = SampleQueue::new(1);
    assert!(!queue.feed_block(&[5]));
    assert!(!queue.feed_block(&[]));
    assert_eq!(queue.len(), 1);
}

#[test]
fn drain_block_of_empty_queue_is_silence() {
    let mut queue = SampleQueue::new(4);
    let mut out = [77u32; 6];
    assert!(queue.drain_block(&mut out));
    assert_eq!(out, [0u32; 6]);
    assert!(queue.is_empty());
}

#[test]
fn drain_block_pads_with_silence_on_underrun() {
    let mut queue = SampleQueue::new(4);
    assert!(!queue.feed_block(&[8, 9]));
    let mut out = [77u32; 4];
    assert!(queue.drain_block(&mut out));
    assert_eq!(out, [8, 9, 0, 0]);
    assert!(queue.is_empty());
}

#[test]
fn drain_block_leaves_the_rest_queued() {
    let mut queue = SampleQueue::new(4);
    assert!(!queue.feed_block(&[1, 2, 3]));
    let mut out = [0u32; 2];
    assert!(!queue.drain_block(&mut out));
    assert_eq!(out, [1, 2]);
    assert_eq!(queue.len(), 1);
    assert_eq!(queue.pop(), Some(3));
}

#[test]
fn drain_empty_block_never_underruns() {
    let mut queue = SampleQueue::new(4);
    let mut out: [u32; 0] = [];
    assert!(!queue.drain_block(&mut out));
}

#[test]
fn largest_capacity_is_a_power_of_two_less_one() {
    assert_eq!(MAX_CAPACITY, (1usize << 29) - 1);
}
