use beep::harmonics::{
    harmonic_term, harmonic_terms, term_angle_numerator, BASE_FREQUENCY_HZ,
    DECAY_DENOMINATOR, DECAY_NUMERATOR, HARMONIC_COUNT,
};

#[test]
fn the_six_fixed_terms() {
    let terms = harmonic_terms();
    assert_eq!(terms, vec![(1, 1), (2, 2), (3, 4), (4, 8), (5, 16), (6, 32)]);
}

#[test]
fn each_divisor_doubles_the_previous() {
    let terms = harmonic_terms();
    for i in 1..terms.len() {
        assert_eq!(terms[i].1, 2 * terms[i - 1].1);
        assert_eq!(terms[i].0, terms[i - 1].0 + 1);
    }
}

#[test]
fn single_term_lookup() {
    assert_eq!(harmonic_term(0), (1, 1));
    assert_eq!(harmonic_term(5), (6, 32));
}

#[test]
fn fixed_constants() {
    assert_eq!(HARMONIC_COUNT, 6);
    assert_eq!(BASE_FREQUENCY_HZ, 6);
    assert_eq!(DECAY_NUMERATOR, 4);
    assert_eq!(DECAY_DENOMINATOR, 10000);
}

#[test]
fn angle_is_zero_at_phase_zero() {
    for a in 1..=6u32 {
        assert_eq!(term_angle_numerator(a, 0), 0);
    }
}

/// The damped-harmonic sample at `phase`, evaluated through the
/// library's overtone table and angle numerators.
fn sample_via_library(phase: u32, sample_rate: u32) -> f64 {
    let tau = 2.0 * std::f64::consts::PI;
    let unit = tau * tau / sample_rate as f64;
    let decay = DECAY_NUMERATOR as f64 / DECAY_DENOMINATOR as f64;
    let envelope_angle = term_angle_numerator(1, phase) as f64 * unit;
    let mut sum = 0.0f64;
    for &(a, b) in harmonic_terms().iter() {
        let sine_angle = term_angle_numerator(a, phase) as f64 * unit;
        sum += sine_angle.sin() * (-decay * envelope_angle).exp() / b as f64;
    }
    sum * sum * sum
}

/// The same sample written out directly from the formula, with the six
/// pairs spelled out, as an independent reference.
fn sample_reference(phase: u32, sample_rate: u32) -> f64 {
    let tau = 2.0 * std::f64::consts::PI;
    let f = 6.0f64;
    let k = 0.0004f64;
    let t = phase as f64 * tau / sample_rate as f64;
    let mut sum = 0.0f64;
    for &(a, b) in &[(1.0, 1.0), (2.0, 2.0), (3.0, 4.0), (4.0, 8.0), (5.0, 16.0), (6.0, 32.0f64)] {
        sum += (a * tau * f * t).sin() * (-k * tau * f * t).exp() / b;
    }
    sum * sum * sum
}

#[test]
fn quarter_period_sample_matches_reference() {
    let got = sample_via_library(11025, 44100);
    let want = sample_reference(11025, 44100);
    assert!((got - want).abs() < 1e-5, "got {got}, want {want}");
}

#[test]
fn sample_at_phase_zero_is_exactly_zero() {
    assert_eq!(sample_via_library(0, 44100), 0.0);
    assert_eq!(sample_reference(0, 44100), 0.0);
}

#[test]
fn angle_at_quarter_period() {
    // harmonic 2, base frequency 6, phase 11025: 2 * 6 * 11025.
    assert_eq!(term_angle_numerator(2, 11025), 132300);
    // The largest term at the largest phase of a 44100 Hz clock.
    assert_eq!(term_angle_numerator(6, 44099), 6 * 6 * 44099);
}
