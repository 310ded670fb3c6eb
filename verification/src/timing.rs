//! Timestamp bookkeeping: device-status snapshots, clock drift, and
//! instantaneous sample-rate estimation.
//!
//! All clocks are carried as integer nanoseconds, so drift and rate values
//! are exact rationals rather than rounded floating-point readings.

use vstd::prelude::*;
use vstd::arithmetic::div_mod::lemma_div_multiples_vanish;

verus! {

/// Largest magnitude a cumulative frame count can reach: an unsigned 64-bit
/// running total plus a signed 64-bit in-flight correction.
pub const CAPTURED_FRAMES_LIMIT: i128 = 36893488147419103232;

/// A non-negative wall-clock or device-clock reading: seconds and
/// nanoseconds within the second.
#[derive(Clone, Copy, Debug, PartialEq, Eq, Structural)]
pub struct TimeSpec {
    pub sec: i64,
    pub nsec: u32,
}

impl TimeSpec {
    pub open spec fn wf(self) -> bool {
        &&& self.sec >= 0
        &&& self.nsec < 1_000_000_000
    }

    /// The reading as a single nanosecond count.
    pub open spec fn spec_nanos(self) -> int {
        self.sec * 1_000_000_000 + self.nsec
    }

    pub fn total_nanos(&self) -> (r: i128)
        requires
            self.wf(),
        ensures
            r == self.spec_nanos(),
            0 <= r,
    {
        (self.sec as i128) * 1_000_000_000 + (self.nsec as i128)
    }
}

/// Transport state of a stream at the instant a snapshot was taken.
#[derive(Clone, Copy, Debug, PartialEq, Eq, Structural)]
pub enum TransportState {
    Idle,
    Prepared,
    Running,
    XRun,
    Draining,
    Suspended,
}

/// One consistent device-status snapshot, captured after a completed
/// transfer and immutable afterwards.
#[derive(Clone, Copy, Debug, PartialEq, Eq, Structural)]
pub struct StatusSample {
    pub state: TransportState,
    pub avail: u64,
    pub delay: i64,
    pub audio_htstamp: TimeSpec,
    pub trigger_htstamp: TimeSpec,
    pub htstamp: TimeSpec,
}

impl StatusSample {
    pub open spec fn wf(self) -> bool {
        &&& self.audio_htstamp.wf()
        &&& self.trigger_htstamp.wf()
        &&& self.htstamp.wf()
    }

    /// Divergence between wall-clock elapsed time since the trigger and the
    /// elapsed time implied by the device clock.
    pub open spec fn spec_drift_nanos(self) -> int {
        self.htstamp.spec_nanos() - self.trigger_htstamp.spec_nanos()
            - self.audio_htstamp.spec_nanos()
    }
}

/// Raw timing drift of a snapshot, in nanoseconds: system elapsed time since
/// the trigger minus the device-clock elapsed time.
pub fn drift_nanos(snap: &StatusSample) -> (r: i128)
    requires
        snap.wf(),
    ensures
        r == snap.spec_drift_nanos(),
{
    snap.htstamp.total_nanos() - snap.trigger_htstamp.total_nanos()
        - snap.audio_htstamp.total_nanos()
}

/// Cumulative frames at the snapshot instant: the running transfer total
/// plus the frames still in flight (the snapshot's delay count).
pub fn captured_frames(frames_count: u64, delay: i64) -> (r: i128)
    ensures
        r == frames_count + delay,
        -CAPTURED_FRAMES_LIMIT <= r <= CAPTURED_FRAMES_LIMIT,
{
    (frames_count as i128) + (delay as i128)
}

/// The retained part of the previous snapshot of a direction.
#[derive(Clone, Copy, Debug, PartialEq, Eq, Structural)]
pub struct PreviousStatusSample {
    pub audio_htstamp: TimeSpec,
    pub htstamp: TimeSpec,
    pub captured_frames: i128,
}

impl PreviousStatusSample {
    pub open spec fn wf(self) -> bool {
        &&& self.audio_htstamp.wf()
        &&& self.htstamp.wf()
        &&& -CAPTURED_FRAMES_LIMIT <= self.captured_frames <= CAPTURED_FRAMES_LIMIT
    }
}

/// An instantaneous rate reading: frames gained over the elapsed time of
/// each clock, kept as exact ratios. The rate against the system clock is
/// the one that exposes the device clock's true speed; the device-clock
/// delta is carried alongside for comparison.
#[derive(Clone, Copy, Debug, PartialEq, Eq, Structural)]
pub struct RateEstimate {
    pub delta_frames: i128,
    pub delta_audio_nanos: i128,
    pub delta_system_nanos: i128,
}

impl RateEstimate {
    pub open spec fn wf(self) -> bool {
        &&& -2 * CAPTURED_FRAMES_LIMIT <= self.delta_frames <= 2 * CAPTURED_FRAMES_LIMIT
        &&& -0x400000000000000000000000int < self.delta_audio_nanos
            < 0x400000000000000000000000int
        &&& 0 < self.delta_system_nanos < 0x400000000000000000000000int
    }

    /// The rate in thousandths of a frame per second, rounded down.
    pub fn millihertz(&self) -> (r: u128)
        requires
            self.wf(),
            self.delta_frames >= 0,
        ensures
            r == self.delta_frames * 1_000_000_000_000 / (self.delta_system_nanos as int),
    {
        (self.delta_frames as u128) * 1_000_000_000_000u128 / (self.delta_system_nanos as u128)
    }
}

/// Converts successive status snapshots into instantaneous rate estimates.
///
/// The first snapshot after construction or after a reset yields no
/// estimate: there is no previous sample to measure against.
#[derive(Clone, Copy, Debug, PartialEq, Eq, Structural)]
pub struct DriftEstimator {
    pub last: Option<PreviousStatusSample>,
}

impl DriftEstimator {
    pub open spec fn wf(self) -> bool {
        match self.last {
            Some(p) => p.wf(),
            None => true,
        }
    }

    pub fn new() -> (r: DriftEstimator)
        ensures
            r.last is None,
    {
        DriftEstimator { last: None }
    }

    /// Drops the retained sample, as after a transfer discontinuity:
    /// elapsed-time deltas across a recovery are meaningless.
    pub fn reset(&mut self)
        ensures
            final(self).last is None,
    {
        self.last = None;
    }

    /// What `observe` returns given the previously retained sample.
    pub open spec fn spec_estimate(
        prev: Option<PreviousStatusSample>,
        snap: StatusSample,
        captured: i128,
    ) -> Option<RateEstimate> {
        match prev {
            None => None,
            Some(p) => {
                let dt = snap.htstamp.spec_nanos() - p.htstamp.spec_nanos();
                if dt > 0 {
                    Some(RateEstimate {
                        delta_frames: (captured - p.captured_frames) as i128,
                        delta_audio_nanos: (snap.audio_htstamp.spec_nanos()
                            - p.audio_htstamp.spec_nanos()) as i128,
                        delta_system_nanos: dt as i128,
                    })
                } else {
                    None
                }
            },
        }
    }

    /// Feeds one snapshot and its cumulative frame count; returns the rate
    /// estimate against the previous snapshot, when one exists and system
    /// time has advanced, and retains this snapshot for the next call.
    pub fn observe(&mut self, snap: &StatusSample, captured: i128) -> (est: Option<RateEstimate>)
        requires
            old(self).wf(),
            snap.wf(),
            -CAPTURED_FRAMES_LIMIT <= captured <= CAPTURED_FRAMES_LIMIT,
        ensures
            est == Self::spec_estimate(old(self).last, *snap, captured),
            est matches Some(e) ==> e.wf(),
            final(self).last == Some(PreviousStatusSample {
                audio_htstamp: snap.audio_htstamp,
                htstamp: snap.htstamp,
                captured_frames: captured,
            }),
            final(self).wf(),
    {
        let est: Option<RateEstimate> = match &self.last {
            None => None,
            Some(p) => {
                let dt: i128 = snap.htstamp.total_nanos() - p.htstamp.total_nanos();
                if dt > 0 {
                    Some(RateEstimate {
                        delta_frames: captured - p.captured_frames,
                        delta_audio_nanos: snap.audio_htstamp.total_nanos()
                            - p.audio_htstamp.total_nanos(),
                        delta_system_nanos: dt,
                    })
                } else {
                    None
                }
            },
        };
        self.last = Some(PreviousStatusSample {
            audio_htstamp: snap.audio_htstamp,
            htstamp: snap.htstamp,
            captured_frames: captured,
        });
        est
    }
}

/// A stream whose frame count grows at a constant true rate `r` (frames per
/// second, exactly `r` times the elapsed nanoseconds over one billion)
/// yields that rate back exactly: the millihertz reading is `1000 * r`.
pub proof fn lemma_exact_rate_recovered(e: RateEstimate, r: int)
    requires
        e.wf(),
        e.delta_frames >= 0,
        r >= 0,
        e.delta_frames * 1_000_000_000 == r * e.delta_system_nanos,
    ensures
        e.delta_frames * 1_000_000_000_000 / (e.delta_system_nanos as int) == 1000 * r,
{
    assert(e.delta_frames * 1_000_000_000_000 == e.delta_system_nanos * (1000 * r))
        by (nonlinear_arith)
        requires
            e.delta_frames * 1_000_000_000 == r * e.delta_system_nanos,
    ;
    lemma_div_multiples_vanish(1000 * r, e.delta_system_nanos as int);
}

/// Frames the device clock accounts for after `audio_nanos` nanoseconds at
/// the nominal rate, rounded down.
pub fn played_frames_at(sample_rate: u32, audio_nanos: i128) -> (r: u128)
    requires
        0 <= audio_nanos < 0x400000000000000000000000int,
    ensures
        r == sample_rate * audio_nanos / 1_000_000_000,
{
    proof {
        assert(sample_rate * audio_nanos <= 0xffff_ffffu64 * 0x400000000000000000000000int)
            by (nonlinear_arith)
            requires
                0 <= sample_rate <= 0xffff_ffffu64,
                0 <= audio_nanos <= 0x400000000000000000000000int,
        ;
    }
    (sample_rate as u128) * (audio_nanos as u128) / 1_000_000_000u128
}

/// How much longer (positive) or shorter (negative) a transfer took than the
/// frames it moved account for at the nominal rate.
pub fn period_deviation_nanos(elapsed_nanos: u64, frames: u64, sample_rate: u32) -> (r: i128)
    requires
        sample_rate >= 1,
    ensures
        r == elapsed_nanos - frames * 1_000_000_000 / (sample_rate as int),
{
    let expected: u128 = (frames as u128) * 1_000_000_000u128 / (sample_rate as u128);
    (elapsed_nanos as i128) - (expected as i128)
}

/// Ratio of frames actually captured to frames the system clock accounts
/// for, in parts per million, rounded down.
pub fn rate_ratio_ppm(captured: u64, elapsed_nanos: u64, sample_rate: u32) -> (r: u128)
    requires
        elapsed_nanos >= 1,
        sample_rate >= 1,
    ensures
        r == captured * 1_000_000_000 * 1_000_000 / (elapsed_nanos * sample_rate),
{
    proof {
        assert(1 <= elapsed_nanos * sample_rate <= 0xffff_ffff_ffff_ffffu64 * 0xffff_ffffu64)
            by (nonlinear_arith)
            requires
                1 <= elapsed_nanos <= 0xffff_ffff_ffff_ffffu64,
                1 <= sample_rate <= 0xffff_ffffu64,
        ;
    }
    (captured as u128) * 1_000_000_000u128 * 1_000_000u128
        / ((elapsed_nanos as u128) * (sample_rate as u128))
}

} // verus!
