//! Sizing the queue from a target latency.

use vstd::prelude::*;
use crate::model::{silence, MAX_CAPACITY};
use crate::queue::SampleQueue;

verus! {

/// The stream parameters a session is sized from. The target latency is held
/// in whole microseconds, so that the derivation is exact integer arithmetic.
#[derive(Clone, Copy, Debug, PartialEq, Eq)]
pub struct LatencyConfig {
    pub target_latency_us: u64,
    pub sample_rate: u32,
    pub channels: u16,
}

/// The sizes derived from a `LatencyConfig`.
#[derive(Clone, Copy, Debug, PartialEq, Eq)]
pub struct QueuePlan {
    /// The number of silent samples queued before streaming starts.
    pub latency_samples: usize,
    /// The number of slots of the queue.
    pub capacity: usize,
}

/// Why a configuration cannot be turned into a queue.
#[derive(Clone, Copy, Debug, PartialEq, Eq)]
pub enum ConfigError {
    /// The latency rounds to no sample at all, so there is nothing to delay by.
    ZeroLatency,
    /// The queue would need more than `MAX_CAPACITY` slots.
    TooLarge,
}

/// The latency in frames: the latency in seconds times the sample rate,
/// rounded to the nearest whole frame, halves upward.
pub open spec fn latency_frames(target_latency_us: nat, sample_rate: nat) -> nat {
    (target_latency_us * sample_rate + 500_000) / 1_000_000
}

/// The latency in samples: one sample per channel per frame.
pub open spec fn latency_samples(target_latency_us: nat, sample_rate: nat, channels: nat) -> nat {
    channels * latency_frames(target_latency_us, sample_rate)
}

/// The slot count of the queue: twice the latency, which leaves as much
/// headroom above the pre-filled silence as there is silence below.
pub open spec fn queue_capacity(latency_samples: nat) -> nat {
    2 * latency_samples
}

impl LatencyConfig {
    /// The latency in samples that this configuration asks for.
    pub open spec fn samples(&self) -> nat {
        latency_samples(
            self.target_latency_us as nat,
            self.sample_rate as nat,
            self.channels as nat,
        )
    }

    /// Why no queue can be made for this configuration, if that is so: the
    /// latency comes to no sample at all, or the queue would be larger than
    /// `MAX_CAPACITY`.
    pub open spec fn refusal(&self) -> Option<ConfigError> {
        if self.samples() == 0 {
            Some(ConfigError::ZeroLatency)
        } else if queue_capacity(self.samples()) > MAX_CAPACITY {
            Some(ConfigError::TooLarge)
        } else {
            None
        }
    }

    /// The sizes this configuration comes to, where it is not refused.
    pub open spec fn sizes(&self) -> QueuePlan {
        QueuePlan {
            latency_samples: self.samples() as usize,
            capacity: queue_capacity(self.samples()) as usize,
        }
    }

    /// Derives the pre-fill length and the capacity of the queue. A latency
    /// of no samples and a queue beyond `MAX_CAPACITY` are refused.
    pub fn plan(&self) -> (r: Result<QueuePlan, ConfigError>)
        ensures
            match self.refusal() {
                Some(e) => r == Err::<QueuePlan, ConfigError>(e),
                None => r == Ok::<QueuePlan, ConfigError>(self.sizes()) && self.sizes().wf(),
            },
    {
        let latency: u128 = self.target_latency_us as u128;
        let rate: u128 = self.sample_rate as u128;
        let channels: u128 = self.channels as u128;
        assert(latency * rate <= 0xFFFF_FFFF_FFFF_FFFF * 0xFFFF_FFFF) by (nonlinear_arith)
            requires
                latency <= 0xFFFF_FFFF_FFFF_FFFF,
                rate <= 0xFFFF_FFFF,
        ;
        let frames: u128 = (latency * rate + 500_000) / 1_000_000;
        assert(channels * frames <= 0xFFFF * 0x1_0000_0000_0000_0000_0000_0000)
            by (nonlinear_arith)
            requires
                channels <= 0xFFFF,
                frames <= 0x1_0000_0000_0000_0000_0000_0000,
        ;
        let samples: u128 = channels * frames;
        if samples == 0 {
            Err(ConfigError::ZeroLatency)
        } else if samples > (MAX_CAPACITY / 2) as u128 {
            Err(ConfigError::TooLarge)
        } else {
            Ok(QueuePlan { latency_samples: samples as usize, capacity: (2 * samples) as usize })
        }
    }
}

impl QueuePlan {
    /// A plan's queue is twice its latency, and its latency is not zero.
    pub open spec fn wf(&self) -> bool {
        &&& 0 < self.latency_samples
        &&& self.capacity == 2 * self.latency_samples
        &&& self.capacity <= MAX_CAPACITY
    }

    /// Creates the queue of this plan and fills it with the latency's worth
    /// of silence, leaving as many slots free.
    pub fn build_queue(&self) -> (queue: SampleQueue)
        requires
            self.wf(),
        ensures
            queue.wf(),
            queue.slots() == self.capacity,
            queue@ == silence(self.latency_samples as nat),
            queue.slots() - queue@.len() == self.latency_samples,
            queue@.len() < queue.slots(),
    {
        let mut queue = SampleQueue::new(self.capacity);
        queue.fill_with_silence(self.latency_samples);
        assert(queue@ =~= silence(self.latency_samples as nat));
        queue
    }
}

/// Sizes, creates and pre-fills the queue for a configuration.
pub fn prepare_queue(config: &LatencyConfig) -> (r: Result<SampleQueue, ConfigError>)
    ensures
        match r {
            Ok(queue) => config.refusal() is None && queue.wf() && queue@ == silence(
                config.samples(),
            ) && queue.slots() == queue_capacity(config.samples()),
            Err(e) => config.refusal() == Some(e),
        },
{
    match config.plan() {
        Ok(plan) => Ok(plan.build_queue()),
        Err(e) => Err(e),
    }
}

} // verus!
