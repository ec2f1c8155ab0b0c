//! Playback scheduler.
//!
//! The scheduler pulls fixed-size blocks of raw 8-bit PCM from a storage
//! stream, applies the volume transform in place, and drains the result
//! into the mono audio streamer through the backpressure protocol, while
//! polling the transport controls (pause, seek, volume, cancel) on every
//! iteration and emitting a best-effort progress snapshot.

pub mod progress;
pub mod session;
pub mod stream;
pub mod volume;
