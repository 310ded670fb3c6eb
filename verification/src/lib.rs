//! Verified core of a clock-drift diagnosis toolkit for paired audio streams.
//!
//! The library models the hardware-facing pieces of a loopback measurement
//! rig — stream geometry negotiation results, the bounded block queue that
//! bridges a capture stream to a playback stream, the per-direction transfer
//! state machine with underrun/overrun recovery, and timestamp bookkeeping —
//! together with the offline analysis arithmetic: drift and instantaneous
//! sample-rate estimation from hardware timestamps, a fixed-point biquad
//! low-pass section, and the windowing that precedes spectral analysis.
//!
//! All time is carried as integer nanoseconds and all signal samples as
//! fixed-point integers, so every computation here has an exact contract.
//! Device I/O, thread handling and floating-point spectral transforms live
//! with the callers; the decisions they act on are made and proved here.

pub mod analysis;
pub mod bridge;
pub mod dsp;
pub mod geometry;
pub mod numeric;
pub mod sched;
pub mod stream;
pub mod timing;
