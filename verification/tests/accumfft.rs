use rustfft::num_complex::Complex;
use rustfft::FftPlanner;
use sigkit::accumfft::AccumFFT;

// The magnitude of bin zero of the window's forward transform, computed the
// way the probe's caller is meant to: on the window the probe hands out,
// exactly when it hands one out.
fn amplitude(probe: &AccumFFT) -> Option<f32> {
    let window = probe.amplitude_window()?;
    let mut buf: Vec<Complex<f32>> = window
        .iter()
        .map(|bits| Complex { re: f32::from_bits(*bits), im: 0.0 })
        .collect();
    FftPlanner::new().plan_fft_forward(buf.len()).process(&mut buf);
    Some(buf[0].norm())
}

fn sine_sample(i: usize) -> f32 {
    let pi = std::f32::consts::PI;
    (2.0 * pi * (i as f32) / 100.0 * 50.0).sin()
}

fn test_50hz(accum_fft: &mut AccumFFT) {
    for i in 0..100 {
        accum_fft.feed(sine_sample(i).to_bits());
    }
    // The transform's very last rounding bit varies with the transform
    // library's version and with the machine paths its planner picks, so
    // the recorded value is checked to within a hair, not bit-exactly.
    let amp = amplitude(accum_fft).expect("window is full");
    assert!((amp - 1.1316923e-4).abs() < 1e-9, "amplitude {amp}");
}

fn test_not_enough_samples(accum_fft: &mut AccumFFT) {
    for i in 0..99 {
        accum_fft.feed(sine_sample(i).to_bits());
    }
    assert_eq!(amplitude(accum_fft), None);
}

#[test]
fn amplitude_of_50hz() {
    let mut accum_fft = AccumFFT::new(50f32.to_bits());
    test_50hz(&mut accum_fft);
}

#[test]
fn not_enough_samples() {
    let mut accum_fft = AccumFFT::new(50f32.to_bits());
    test_not_enough_samples(&mut accum_fft);
}

#[test]
fn accumfft_resetable() {
    let mut accum_fft = AccumFFT::new(50f32.to_bits());
    test_50hz(&mut accum_fft);
    accum_fft.reset();
    test_not_enough_samples(&mut accum_fft);
    accum_fft.reset();
    test_50hz(&mut accum_fft);
}

// The window size is ceil(freq * 2), with degenerate hints giving
// degenerate windows.
#[test]
fn window_sizing() {
    assert_eq!(AccumFFT::new(50.0f32.to_bits()).capacity(), 100);
    assert_eq!(AccumFFT::new(0.3f32.to_bits()).capacity(), 1);
    assert_eq!(AccumFFT::new(0.0f32.to_bits()).capacity(), 0);
    assert_eq!(AccumFFT::new((-3.0f32).to_bits()).capacity(), 0);
    assert_eq!(AccumFFT::new(f32::NAN.to_bits()).capacity(), 0);
}

// A window of fewer than two samples never defines an amplitude: the first
// half of its transformed bins is empty.
#[test]
fn tiny_window_has_no_amplitude() {
    let mut one = AccumFFT::new(0.3f32.to_bits());
    assert_eq!(one.capacity(), 1);
    assert!(amplitude(&one).is_none());
    one.feed(1.0f32.to_bits());
    assert_eq!(one.len(), 1);
    assert!(amplitude(&one).is_none());

    let zero = AccumFFT::new(0.0f32.to_bits());
    assert!(amplitude(&zero).is_none());
}

// Samples fed past a full window are dropped: the window, and with it the
// query, is the one the first `capacity` samples produced.
#[test]
fn overflow_is_dropped() {
    let mut probe = AccumFFT::new(2.0f32.to_bits());
    assert_eq!(probe.capacity(), 4);
    for x in [1.0f32, 2.0, 3.0, 4.0, 5.0, 6.0] {
        probe.feed(x.to_bits());
    }
    assert_eq!(probe.len(), 4);
    let window = probe.amplitude_window().unwrap();
    let expect: Vec<u32> = [1.0f32, 2.0, 3.0, 4.0].iter().map(|x| x.to_bits()).collect();
    assert_eq!(window, expect);
}

// Querying a full, unmodified probe twice gives bit-identical results.
#[test]
fn query_is_idempotent() {
    let mut probe = AccumFFT::new(1.0f32.to_bits());
    for x in [0.5f32, -0.25] {
        probe.feed(x.to_bits());
    }
    let first = amplitude(&probe).unwrap();
    let second = amplitude(&probe).unwrap();
    assert_eq!(first.to_bits(), second.to_bits());
}
