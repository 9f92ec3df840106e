use rustfft::num_complex::Complex;
use rustfft::FftPlanner;
use soundscape::analyzer::{isqrt, AudioAnalyzer};
use soundscape::channel::FrameChannel;
use soundscape::config::{AudioConfig, Config};

#[test]
fn isqrt_exact_values() {
    assert_eq!(isqrt(0), 0);
    assert_eq!(isqrt(1), 1);
    assert_eq!(isqrt(3), 1);
    assert_eq!(isqrt(4), 2);
    assert_eq!(isqrt(99), 9);
    assert_eq!(isqrt(100), 10);
    assert_eq!(isqrt(100_000_000_000_000), 10_000_000);
    assert_eq!(isqrt(u64::MAX), 4_294_967_295);
}

/// A tiny configuration whose bin width is exactly 1 Hz: 8 samples at 8
/// samples per second, so bin k covers k Hz and half the bins are usable.
fn tiny_config(sensitivity: u64) -> AudioConfig {
    AudioConfig {
        sample_rate: 8,
        channels: 1,
        fft_size: 8,
        bass_range: (1, 2),
        mid_range: (2, 3),
        treble_range: (3, 4),
        sensitivity,
    }
}

#[test]
fn band_energies_follow_the_mean_square_formula() {
    let analyzer = AudioAnalyzer::new(&tiny_config(1000));
    // Squared magnitudes per bin; bins 1..4 are usable.
    let spectrum: Vec<u64> = vec![7, 400, 900, 1600, 5, 0, 0, 0];
    let frame = analyzer.analyze(&spectrum);
    // Each band covers exactly one bin: energy = sqrt(mean) = sqrt(value).
    assert_eq!(frame.bass_energy, 20);
    assert_eq!(frame.mid_energy, 30);
    assert_eq!(frame.treble_energy, 40);
    // Peak is bin 3: 3 * 8 / 8 Hz = 3000 millihertz.
    assert_eq!(frame.peak_frequency, 3000);
    assert_eq!(frame.overall_energy, 90);
}

#[test]
fn sensitivity_scales_energies_but_not_peak_frequency() {
    let analyzer = AudioAnalyzer::new(&tiny_config(2000));
    let spectrum: Vec<u64> = vec![0, 400, 900, 1600, 0, 0, 0, 0];
    let frame = analyzer.analyze(&spectrum);
    assert_eq!(frame.bass_energy, 40);
    assert_eq!(frame.mid_energy, 60);
    assert_eq!(frame.treble_energy, 80);
    assert_eq!(frame.peak_frequency, 3000);
    assert_eq!(frame.overall_energy, 180);
}

#[test]
fn band_beyond_usable_bins_is_empty_and_silent() {
    let mut cfg = tiny_config(1000);
    // Both endpoints clamp to the last usable bin: an empty range.
    cfg.treble_range = (5, 6);
    let analyzer = AudioAnalyzer::new(&cfg);
    let spectrum: Vec<u64> = vec![0, 100, 100, 100, 100, 100, 100, 100];
    let frame = analyzer.analyze(&spectrum);
    assert_eq!(frame.treble_energy, 0);
}

#[test]
fn peak_prefers_the_earliest_of_equal_bins() {
    let analyzer = AudioAnalyzer::new(&tiny_config(1000));
    let spectrum: Vec<u64> = vec![0, 500, 500, 500, 0, 0, 0, 0];
    let frame = analyzer.analyze(&spectrum);
    assert_eq!(frame.peak_frequency, 1000);
}

#[test]
fn silent_spectrum_has_peak_zero() {
    let analyzer = AudioAnalyzer::new(&tiny_config(1000));
    let spectrum: Vec<u64> = vec![0; 8];
    let frame = analyzer.analyze(&spectrum);
    assert_eq!(frame.peak_frequency, 0);
    assert_eq!(frame.overall_energy, 0);
}

#[test]
fn analysis_is_deterministic() {
    let analyzer = AudioAnalyzer::new(&Config::default().audio);
    let spectrum: Vec<u64> = (0..2048u64).map(|i| (i * 37) % 90001).collect();
    let first = analyzer.analyze(&spectrum);
    let second = analyzer.analyze(&spectrum);
    assert_eq!(first, second);
}

#[test]
fn process_audio_emits_with_drop_if_full_backpressure() {
    let analyzer = AudioAnalyzer::new(&tiny_config(1000));
    let mut channel = FrameChannel::with_capacity(2);
    let quiet: Vec<u64> = vec![0, 100, 0, 0, 0, 0, 0, 0];
    let loud: Vec<u64> = vec![0, 0, 0, 10000, 0, 0, 0, 0];
    let f1 = analyzer.process_audio(&quiet, &mut channel);
    let f2 = analyzer.process_audio(&loud, &mut channel);
    // The channel is full now: this frame is computed but dropped.
    let f3 = analyzer.process_audio(&quiet, &mut channel);
    assert_eq!(f1, f3);
    assert_eq!(channel.drain_latest(), Some(f2));
    assert_eq!(channel.drain_latest(), None);
}

/// Run the floating-point front end the way the presentation layer does:
/// Hann window, forward transform, squared magnitudes in fixed point.
fn spectrum_of(samples: &[f32], fft_size: usize) -> Vec<u64> {
    let mut planner = FftPlanner::<f32>::new();
    let fft = planner.plan_fft_forward(fft_size);
    let mut buffer: Vec<Complex<f32>> = Vec::with_capacity(fft_size);
    for i in 0..fft_size.min(samples.len()) {
        let phase = 2.0 * std::f32::consts::PI * i as f32 / fft_size as f32;
        let window = 0.5 * (1.0 - phase.cos());
        buffer.push(Complex::new(samples[i] * window, 0.0));
    }
    while buffer.len() < fft_size {
        buffer.push(Complex::new(0.0, 0.0));
    }
    fft.process(&mut buffer);
    buffer
        .iter()
        .map(|c| {
            let mag_sq_units = c.norm_sqr() as f64 * 1_000_000.0;
            mag_sq_units.min(1e14) as u64
        })
        .collect()
}

#[test]
fn pure_sinusoid_lands_within_one_bin_of_its_frequency() {
    let cfg = Config::default().audio;
    let analyzer = AudioAnalyzer::new(&cfg);
    let hz = 5000.0f32;
    let samples: Vec<f32> = (0..cfg.fft_size)
        .map(|i| (2.0 * std::f32::consts::PI * hz * i as f32 / cfg.sample_rate as f32).sin())
        .collect();
    let spectrum = spectrum_of(&samples, cfg.fft_size);
    let frame = analyzer.analyze(&spectrum);
    // One bin is 44100 / 2048 Hz, about 21.5 Hz; frequencies are in
    // millihertz.
    let bin_width_millihz = cfg.sample_rate as i64 * 1000 / cfg.fft_size as i64;
    let delta = frame.peak_frequency as i64 - 5_000_000;
    assert!(
        delta.abs() <= bin_width_millihz,
        "peak {} millihertz is more than one bin from 5 MHz thousandths (bin width {})",
        frame.peak_frequency,
        bin_width_millihz
    );
    // 5 kHz lies in the configured treble band: treble must dominate.
    assert!(frame.treble_energy > frame.bass_energy);
    assert!(frame.treble_energy > frame.mid_energy);
}
