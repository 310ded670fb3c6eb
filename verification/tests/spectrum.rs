use audio_drift::analysis::prepare_series;
use rustfft::FftPlanner;
use rustfft::num_complex::Complex;

// Fixed-point scale used to quantize the test signal for the library.
const SCALE: f64 = 1048576.0;

// One-sided magnitude spectrum of a real series: the absolute values of
// the first half of the full transform.
fn one_sided_spectrum(series: &[f64]) -> Vec<f64> {
    let mut buf: Vec<Complex<f64>> =
        series.iter().map(|&v| Complex::new(v, 0.0)).collect();
    let mut planner = FftPlanner::new();
    let fft = planner.plan_fft_forward(buf.len());
    fft.process(&mut buf);
    buf.truncate(series.len() / 2);
    buf.iter().map(|c| c.norm()).collect()
}

#[test]
fn pure_sinusoid_peaks_at_its_own_bin() {
    let fs = 1024.0;
    let f = 128.0;
    let len = 256usize;
    let quantized: Vec<i64> = (0..len)
        .map(|n| {
            let v = (2.0 * std::f64::consts::PI * f * n as f64 / fs).sin();
            (v * SCALE) as i64
        })
        .collect();
    // An already-clean series passes through the preparation unchanged.
    let prepared = prepare_series(&quantized, 0, 0).unwrap();
    assert_eq!(prepared, quantized);

    let series: Vec<f64> = prepared.iter().map(|&v| v as f64 / SCALE).collect();
    let spectrum = one_sided_spectrum(&series);
    assert_eq!(spectrum.len(), len / 2);

    let mut peak = 0usize;
    for (i, &m) in spectrum.iter().enumerate() {
        if m > spectrum[peak] {
            peak = i;
        }
    }
    // Expected dominant bin: round(f * len / fs) = 32, within one bin.
    let expected = (f * len as f64 / fs).round() as i64;
    assert!((peak as i64 - expected).abs() <= 1, "peak at bin {peak}");
}
