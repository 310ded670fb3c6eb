use audio_drift::stream::RecoveryAction;
use audio_drift::stream::StreamDirection;
use audio_drift::stream::StreamProgress;
use audio_drift::stream::TransferEvent;
use audio_drift::timing::StatusSample;
use audio_drift::timing::TimeSpec;
use audio_drift::timing::TransportState;

fn capture_snapshot(sec: i64, delay: i64) -> StatusSample {
    StatusSample {
        state: TransportState::Running,
        avail: 0,
        delay,
        audio_htstamp: TimeSpec { sec, nsec: 0 },
        trigger_htstamp: TimeSpec { sec: 0, nsec: 0 },
        htstamp: TimeSpec { sec, nsec: 0 },
    }
}

#[test]
fn successful_transfers_accumulate_frames() {
    let mut p = StreamProgress::new(StreamDirection::Capture);
    assert_eq!(p.on_event(TransferEvent::Transferred(256)), RecoveryAction::Proceed);
    assert_eq!(p.on_event(TransferEvent::Transferred(256)), RecoveryAction::Proceed);
    assert_eq!(p.frames_count, 512);
    assert_eq!(p.xruns, 0);
}

#[test]
fn capture_failure_recovers_and_restarts() {
    let mut p = StreamProgress::new(StreamDirection::Capture);
    p.on_event(TransferEvent::Transferred(256));
    let action = p.on_event(TransferEvent::TransferFailed);
    assert_eq!(action, RecoveryAction::RecoverAndStart);
    assert_eq!(p.frames_count, 0);
    assert_eq!(p.xruns, 1);
}

#[test]
fn playback_failure_recovers_without_restart() {
    let mut p = StreamProgress::new(StreamDirection::Playback);
    let action = p.on_event(TransferEvent::TransferFailed);
    assert_eq!(action, RecoveryAction::Recover);
    assert_eq!(p.xruns, 1);
}

#[test]
fn wait_failure_counts_as_xrun() {
    let mut p = StreamProgress::new(StreamDirection::Capture);
    assert_eq!(p.on_event(TransferEvent::WaitFailed), RecoveryAction::RecoverAndStart);
    assert_eq!(p.xruns, 1);
}

#[test]
fn frame_counter_saturates_at_ceiling() {
    let mut p = StreamProgress::new(StreamDirection::Playback);
    p.on_event(TransferEvent::Transferred(u64::MAX));
    p.on_event(TransferEvent::Transferred(1));
    assert_eq!(p.frames_count, u64::MAX);
}

#[test]
fn recovery_discards_the_previous_timestamp_sample() {
    let mut p = StreamProgress::new(StreamDirection::Capture);
    p.on_event(TransferEvent::Transferred(256));
    assert!(p.record_snapshot(&capture_snapshot(1, 0)).is_none());
    p.on_event(TransferEvent::TransferFailed);
    // After the discontinuity the next snapshot is a first sample again.
    assert!(p.record_snapshot(&capture_snapshot(2, 0)).is_none());
}

#[test]
fn capture_estimates_count_in_flight_frames() {
    let mut p = StreamProgress::new(StreamDirection::Capture);
    p.on_event(TransferEvent::Transferred(48_000));
    assert!(p.record_snapshot(&capture_snapshot(1, 100)).is_none());
    p.on_event(TransferEvent::Transferred(48_000));
    let est = p.record_snapshot(&capture_snapshot(2, 400)).unwrap();
    // 48000 newly counted frames plus 300 more in flight.
    assert_eq!(est.delta_frames, 48_300);
    assert_eq!(est.delta_system_nanos, 1_000_000_000);
}

#[test]
fn playback_estimates_ignore_delay() {
    let mut p = StreamProgress::new(StreamDirection::Playback);
    p.on_event(TransferEvent::Transferred(48_000));
    assert!(p.record_snapshot(&capture_snapshot(1, 100)).is_none());
    p.on_event(TransferEvent::Transferred(48_000));
    let est = p.record_snapshot(&capture_snapshot(2, 400)).unwrap();
    assert_eq!(est.delta_frames, 48_000);
}
