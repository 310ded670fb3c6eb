use audio_drift::timing::DriftEstimator;
use audio_drift::timing::StatusSample;
use audio_drift::timing::TimeSpec;
use audio_drift::timing::TransportState;
use audio_drift::timing::captured_frames;
use audio_drift::timing::drift_nanos;
use audio_drift::timing::period_deviation_nanos;
use audio_drift::timing::played_frames_at;
use audio_drift::timing::rate_ratio_ppm;

fn snapshot(sys: TimeSpec, audio: TimeSpec, trigger: TimeSpec, delay: i64) -> StatusSample {
    StatusSample {
        state: TransportState::Running,
        avail: 0,
        delay,
        audio_htstamp: audio,
        trigger_htstamp: trigger,
        htstamp: sys,
    }
}

#[test]
fn drift_is_system_minus_trigger_minus_audio() {
    let snap = snapshot(
        TimeSpec { sec: 10, nsec: 500_000_000 },
        TimeSpec { sec: 10, nsec: 0 },
        TimeSpec { sec: 0, nsec: 250_000_000 },
        0,
    );
    // 10.5 s - 0.25 s - 10.0 s = 0.25 s
    assert_eq!(drift_nanos(&snap), 250_000_000);
}

#[test]
fn captured_frames_include_in_flight_delay() {
    assert_eq!(captured_frames(100, 28), 128);
    assert_eq!(captured_frames(100, -5), 95);
}

#[test]
fn first_snapshot_yields_no_estimate() {
    let mut est = DriftEstimator::new();
    let snap = snapshot(
        TimeSpec { sec: 1, nsec: 0 },
        TimeSpec { sec: 1, nsec: 0 },
        TimeSpec { sec: 0, nsec: 0 },
        0,
    );
    assert!(est.observe(&snap, 48_000).is_none());
}

#[test]
fn constant_rate_is_recovered_exactly() {
    // Synthetic capture at exactly 48000 frames per second, zero jitter.
    let mut est = DriftEstimator::new();
    let mut frames: i128 = 0;
    let mut reading = None;
    for sec in 0..4 {
        let snap = snapshot(
            TimeSpec { sec, nsec: 0 },
            TimeSpec { sec, nsec: 0 },
            TimeSpec { sec: 0, nsec: 0 },
            0,
        );
        reading = est.observe(&snap, frames);
        frames += 48_000;
    }
    let e = reading.unwrap();
    assert_eq!(e.delta_frames, 48_000);
    assert_eq!(e.delta_audio_nanos, 1_000_000_000);
    assert_eq!(e.delta_system_nanos, 1_000_000_000);
    assert_eq!(e.millihertz(), 48_000_000);
}

#[test]
fn stalled_system_clock_yields_no_estimate() {
    let mut est = DriftEstimator::new();
    let snap = snapshot(
        TimeSpec { sec: 2, nsec: 0 },
        TimeSpec { sec: 2, nsec: 0 },
        TimeSpec { sec: 0, nsec: 0 },
        0,
    );
    assert!(est.observe(&snap, 1000).is_none());
    assert!(est.observe(&snap, 2000).is_none());
}

#[test]
fn reset_discards_the_previous_sample() {
    let mut est = DriftEstimator::new();
    let first = snapshot(
        TimeSpec { sec: 1, nsec: 0 },
        TimeSpec { sec: 1, nsec: 0 },
        TimeSpec { sec: 0, nsec: 0 },
        0,
    );
    let second = snapshot(
        TimeSpec { sec: 2, nsec: 0 },
        TimeSpec { sec: 2, nsec: 0 },
        TimeSpec { sec: 0, nsec: 0 },
        0,
    );
    assert!(est.observe(&first, 0).is_none());
    est.reset();
    assert!(est.observe(&second, 48_000).is_none());
}

#[test]
fn played_frames_follow_the_nominal_rate() {
    assert_eq!(played_frames_at(48_000, 1_000_000_000), 48_000);
    assert_eq!(played_frames_at(48_000, 500_000_000), 24_000);
    assert_eq!(played_frames_at(44_100, 2_000_000_000), 88_200);
}

#[test]
fn period_deviation_measures_excess_time() {
    // 256 frames at 48000 Hz account for 5333333 ns.
    assert_eq!(period_deviation_nanos(5_400_000, 256, 48_000), 66_667);
    assert_eq!(period_deviation_nanos(5_000_000, 256, 48_000), -333_333);
}

#[test]
fn exact_capture_ratio_is_one_million_ppm() {
    assert_eq!(rate_ratio_ppm(48_000, 1_000_000_000, 48_000), 1_000_000);
    // Capturing half the expected frames reads half the ratio.
    assert_eq!(rate_ratio_ppm(24_000, 1_000_000_000, 48_000), 500_000);
}
