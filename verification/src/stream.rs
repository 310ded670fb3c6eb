//! Per-direction transfer state machine.
//!
//! Each stream direction runs a loop of blocking transfer calls; this
//! module makes the decisions of one loop iteration: how a transfer outcome
//! changes the running counters, what recovery the device needs, and what
//! a status snapshot contributes to the drift measurement. The blocking
//! calls themselves happen at the caller, which feeds their outcomes back
//! in as events.

use vstd::prelude::*;
use crate::timing::CAPTURED_FRAMES_LIMIT;
use crate::timing::DriftEstimator;
use crate::timing::PreviousStatusSample;
use crate::timing::RateEstimate;
use crate::timing::StatusSample;
use crate::timing::captured_frames;

verus! {

/// Which way the stream moves data.
#[derive(Clone, Copy, Debug, PartialEq, Eq, Structural)]
pub enum StreamDirection {
    Capture,
    Playback,
}

/// Outcome of one blocking transfer attempt, as reported by the device.
#[derive(Clone, Copy, Debug, PartialEq, Eq, Structural)]
pub enum TransferEvent {
    /// The transfer completed and moved this many frames.
    Transferred(u64),
    /// The transfer call failed: an underrun (playback) or overrun
    /// (capture).
    TransferFailed,
    /// Waiting for availability failed or timed out.
    WaitFailed,
}

/// What the caller must do to the device before the next iteration.
#[derive(Clone, Copy, Debug, PartialEq, Eq, Structural)]
pub enum RecoveryAction {
    /// Nothing: carry on with the next transfer.
    Proceed,
    /// Re-prime the stream.
    Recover,
    /// Re-prime the stream, then start the transport explicitly; capture
    /// does not restart on its own.
    RecoverAndStart,
}

/// Running state of one direction: cumulative frames, the visible error
/// counter, and the drift estimator fed from status snapshots.
#[derive(Clone, Copy, Debug, PartialEq, Eq, Structural)]
pub struct StreamProgress {
    pub direction: StreamDirection,
    pub frames_count: u64,
    pub xruns: u64,
    pub estimator: DriftEstimator,
}

impl StreamProgress {
    pub open spec fn wf(self) -> bool {
        self.estimator.wf()
    }

    /// A fresh direction: no frames moved, no errors, no previous sample.
    pub fn new(direction: StreamDirection) -> (r: StreamProgress)
        ensures
            r.direction == direction,
            r.frames_count == 0,
            r.xruns == 0,
            r.estimator.last is None,
            r.wf(),
    {
        StreamProgress { direction, frames_count: 0, xruns: 0, estimator: DriftEstimator::new() }
    }

    /// Cumulative frames after a successful transfer of `n` frames; the
    /// counter sticks at its ceiling rather than wrapping.
    pub open spec fn spec_frames_after(self, n: u64) -> u64 {
        if self.frames_count + n <= u64::MAX {
            (self.frames_count + n) as u64
        } else {
            u64::MAX
        }
    }

    /// Applies one transfer outcome.
    ///
    /// A completed transfer accumulates its frames and needs no recovery.
    /// A failed transfer or wait is an overrun/underrun: the visible error
    /// counter grows, the cumulative frame counter and the retained
    /// timestamp sample reset — deltas across the discontinuity would be
    /// meaningless — and the device must be re-primed, plus restarted when
    /// this direction is capture.
    pub fn on_event(&mut self, event: TransferEvent) -> (action: RecoveryAction)
        requires
            old(self).wf(),
        ensures
            final(self).direction == old(self).direction,
            final(self).wf(),
            match event {
                TransferEvent::Transferred(n) => {
                    &&& final(self).frames_count == old(self).spec_frames_after(n)
                    &&& final(self).xruns == old(self).xruns
                    &&& final(self).estimator == old(self).estimator
                    &&& action == RecoveryAction::Proceed
                },
                TransferEvent::TransferFailed | TransferEvent::WaitFailed => {
                    &&& final(self).frames_count == 0
                    &&& final(self).estimator.last is None
                    &&& final(self).xruns == if old(self).xruns < u64::MAX {
                        old(self).xruns + 1
                    } else {
                        u64::MAX as int
                    }
                    &&& action == if old(self).direction is Capture {
                        RecoveryAction::RecoverAndStart
                    } else {
                        RecoveryAction::Recover
                    }
                },
            },
    {
        match event {
            TransferEvent::Transferred(n) => {
                if n <= u64::MAX - self.frames_count {
                    self.frames_count = self.frames_count + n;
                } else {
                    self.frames_count = u64::MAX;
                }
                RecoveryAction::Proceed
            },
            TransferEvent::TransferFailed | TransferEvent::WaitFailed => {
                if self.xruns < u64::MAX {
                    self.xruns = self.xruns + 1;
                }
                self.frames_count = 0;
                self.estimator.reset();
                match self.direction {
                    StreamDirection::Capture => RecoveryAction::RecoverAndStart,
                    StreamDirection::Playback => RecoveryAction::Recover,
                }
            },
        }
    }

    /// Cumulative frames at a snapshot instant: capture counts the frames
    /// still in flight (the snapshot's delay), playback counts only what
    /// was handed to the device.
    pub open spec fn spec_captured_at(self, snap: StatusSample) -> int {
        if self.direction is Capture {
            self.frames_count + snap.delay
        } else {
            self.frames_count as int
        }
    }

    /// Feeds a status snapshot taken after a completed transfer to the
    /// drift estimator; yields a rate estimate unless this is the first
    /// snapshot since the start or since a recovery.
    pub fn record_snapshot(&mut self, snap: &StatusSample) -> (est: Option<RateEstimate>)
        requires
            old(self).wf(),
            snap.wf(),
        ensures
            final(self).direction == old(self).direction,
            final(self).frames_count == old(self).frames_count,
            final(self).xruns == old(self).xruns,
            final(self).wf(),
            est == DriftEstimator::spec_estimate(
                old(self).estimator.last,
                *snap,
                old(self).spec_captured_at(*snap) as i128,
            ),
            est matches Some(e) ==> e.wf(),
            old(self).estimator.last is None ==> est is None,
            final(self).estimator.last == Some(PreviousStatusSample {
                audio_htstamp: snap.audio_htstamp,
                htstamp: snap.htstamp,
                captured_frames: old(self).spec_captured_at(*snap) as i128,
            }),
    {
        let captured: i128 = match self.direction {
            StreamDirection::Capture => captured_frames(self.frames_count, snap.delay),
            StreamDirection::Playback => self.frames_count as i128,
        };
        self.estimator.observe(snap, captured)
    }
}

} // verus!
