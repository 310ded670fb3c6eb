use audio_drift::analysis::SeriesError;
use audio_drift::analysis::prepare_series;
use audio_drift::analysis::samples_in_window;
use audio_drift::numeric::floor_div_i128;

#[test]
fn reference_window_lengths() {
    // 48000 Hz, 256-frame periods: half a second skips 93 series samples,
    // one second fades 187.
    assert_eq!(samples_in_window(48_000, 500, 256), 93);
    assert_eq!(samples_in_window(48_000, 1000, 256), 187);
}

#[test]
fn skip_comes_before_fade() {
    // The lead-in must be gone before any scaling happens.
    let data: Vec<i64> = vec![9_999, 9_999, 100, 200, 300, 400];
    let out = prepare_series(&data, 2, 3).unwrap();
    assert_eq!(out.len(), 4);
    assert_eq!(out[0], 0); // 100 scaled by 0/2
    assert_eq!(out[1], 100); // 200 scaled by 1/2
    assert_eq!(out[2], 300); // 300 scaled by 2/2: the last fade factor is one
    assert_eq!(out[3], 400); // past the fade window: unchanged
}

#[test]
fn fade_endpoints_scale_by_zero_and_one() {
    let data: Vec<i64> = vec![700; 187];
    let out = prepare_series(&data, 0, 187).unwrap();
    assert_eq!(out[0], 0);
    assert_eq!(out[186], 700);
}

#[test]
fn fade_of_negative_samples_rounds_down() {
    let data: Vec<i64> = vec![-7, -7, -7];
    let out = prepare_series(&data, 0, 3).unwrap();
    assert_eq!(out[0], 0);
    assert_eq!(out[1], -4); // -7 / 2 rounded toward negative infinity
    assert_eq!(out[2], -7);
}

#[test]
fn skip_beyond_end_is_rejected() {
    let data: Vec<i64> = vec![1, 2, 3];
    assert_eq!(prepare_series(&data, 4, 0).unwrap_err(), SeriesError::SkipBeyondEnd);
}

#[test]
fn single_sample_fade_is_rejected() {
    let data: Vec<i64> = vec![1, 2, 3];
    assert_eq!(prepare_series(&data, 0, 1).unwrap_err(), SeriesError::DegenerateFade);
}

#[test]
fn fade_beyond_end_is_rejected() {
    let data: Vec<i64> = vec![1, 2, 3];
    assert_eq!(prepare_series(&data, 2, 2).unwrap_err(), SeriesError::FadeBeyondEnd);
}

#[test]
fn empty_windows_leave_the_series_alone() {
    let data: Vec<i64> = vec![5, 6, 7];
    let out = prepare_series(&data, 0, 0).unwrap();
    assert_eq!(out, data);
}

#[test]
fn flooring_division_rounds_toward_negative_infinity() {
    assert_eq!(floor_div_i128(7, 2), 3);
    assert_eq!(floor_div_i128(-7, 2), -4);
    assert_eq!(floor_div_i128(-8, 2), -4);
    assert_eq!(floor_div_i128(0, 5), 0);
}
