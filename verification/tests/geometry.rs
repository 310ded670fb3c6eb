use audio_drift::geometry::ConfigurationError;
use audio_drift::geometry::SampleFormat;
use audio_drift::geometry::StreamGeometry;

#[test]
fn reference_geometry_sizes() {
    // 48000 Hz, 256-frame periods, 4 periods, stereo.
    let g = StreamGeometry::new(48000, 256, 4, 2, SampleFormat::SignedInt16).unwrap();
    assert_eq!(g.buffer_size(), 1024);
    assert_eq!(g.start_threshold(), 768);
    assert_eq!(g.transfer_buffer_len(), 512);
    // period_time = 256 / 48000 s, in nanoseconds, rounded down.
    assert_eq!(g.period_time_nanos(), 5_333_333);
}

#[test]
fn transfer_buffer_len_is_period_times_channels() {
    let g = StreamGeometry::new(44100, 128, 2, 6, SampleFormat::SignedInt32).unwrap();
    assert_eq!(g.transfer_buffer_len(), 128 * 6);
    let block = g.new_transfer_block_s32();
    assert_eq!(block.len(), 128 * 6);
    assert!(block.iter().all(|&s| s == 0));
}

#[test]
fn transfer_block_matches_geometry() {
    let g = StreamGeometry::new(48000, 256, 4, 2, SampleFormat::SignedInt16).unwrap();
    let block = g.new_transfer_block();
    assert_eq!(block.len(), 512);
    assert!(block.iter().all(|&s| s == 0));
}

#[test]
fn zero_sample_rate_rejected() {
    let r = StreamGeometry::new(0, 256, 4, 2, SampleFormat::SignedInt16);
    assert_eq!(r.unwrap_err(), ConfigurationError::ZeroSampleRate);
}

#[test]
fn zero_period_size_rejected() {
    let r = StreamGeometry::new(48000, 0, 4, 2, SampleFormat::SignedInt16);
    assert_eq!(r.unwrap_err(), ConfigurationError::ZeroPeriodSize);
}

#[test]
fn single_period_rejected() {
    let r = StreamGeometry::new(48000, 256, 1, 2, SampleFormat::SignedInt16);
    assert_eq!(r.unwrap_err(), ConfigurationError::TooFewPeriods);
}

#[test]
fn zero_channels_rejected() {
    let r = StreamGeometry::new(48000, 256, 4, 0, SampleFormat::SignedInt16);
    assert_eq!(r.unwrap_err(), ConfigurationError::NoChannels);
}

#[test]
fn oversized_buffer_rejected() {
    let r = StreamGeometry::new(48000, 65536, 65536, 2, SampleFormat::SignedInt16);
    assert_eq!(r.unwrap_err(), ConfigurationError::BufferTooLarge);
}
