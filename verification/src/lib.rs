//! A latency buffer for relaying captured audio to playback.
//!
//! Samples travel through a fixed-capacity FIFO that starts out holding a run
//! of silence; the silence is the delay that absorbs jitter between the
//! capture and the playback callbacks. Samples are carried as the 32-bit
//! patterns of their amplitudes and pass through unmodified.

pub mod config;
pub mod handles;
pub mod laws;
pub mod model;
pub mod queue;
pub mod ring;
pub mod session;
