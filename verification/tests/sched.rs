use audio_drift::sched::SchedulingError;
use audio_drift::sched::elevate;
use audio_drift::sched::get_realtime_priority;

#[test]
fn zero_priority_is_out_of_range() {
    assert_eq!(elevate(0).unwrap_err(), SchedulingError::PriorityOutOfRange);
}

#[test]
fn priority_above_ninety_nine_is_out_of_range() {
    assert_eq!(elevate(100).unwrap_err(), SchedulingError::PriorityOutOfRange);
}

#[test]
fn default_elevation_never_reports_a_range_error() {
    // Whether the environment grants real-time scheduling is its own
    // business; the default level itself is always acceptable.
    match get_realtime_priority() {
        Ok(()) => {},
        Err(e) => assert_eq!(e, SchedulingError::ElevationDenied),
    }
}
