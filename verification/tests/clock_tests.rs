use beep::clock::PhaseClock;

#[test]
fn fresh_clock_starts_at_zero() {
    let c = PhaseClock::new(44100);
    assert_eq!(c.current_phase(), 0);
    assert_eq!(c.sample_rate(), 44100);
}

#[test]
fn phase_wraps_modulo_rate() {
    let mut c = PhaseClock::new(4);
    let mut seen = Vec::new();
    for _ in 0..6 {
        seen.push(c.next_phase());
    }
    assert_eq!(seen, vec![0, 1, 2, 3, 0, 1]);
    assert_eq!(c.current_phase(), 2);
}

#[test]
fn phase_used_at_frame_n_is_n_mod_rate() {
    let mut c = PhaseClock::new(7);
    for n in 0u32..40 {
        assert_eq!(c.next_phase(), n % 7);
    }
}

#[test]
fn rate_one_clock_stays_at_zero() {
    let mut c = PhaseClock::new(1);
    for _ in 0..5 {
        assert_eq!(c.next_phase(), 0);
    }
    assert_eq!(c.current_phase(), 0);
}
