//! The fixed overtone series of the procedural waveform.
//!
//! The waveform is an additive sum of six damped sinusoidal terms.
//! Term `i` uses harmonic index `i + 1` and attenuation divisor
//! `2^i`: each successive harmonic has double the divisor of the
//! previous one, a decaying overtone series.  The sine and the decay
//! of a term are taken at an angle proportional to
//! `harmonic * base_frequency * phase`; this module fixes that integer
//! skeleton, while the transcendental evaluation itself is left to the
//! caller.

use vstd::prelude::*;

verus! {

/// How many terms the overtone series has.
pub const HARMONIC_COUNT: usize = 6;

/// Base frequency of the waveform, in hertz.
pub const BASE_FREQUENCY_HZ: u32 = 6;

/// Numerator of the fixed decay constant of the damping envelope.
pub const DECAY_NUMERATOR: u32 = 4;

/// Denominator of the fixed decay constant: the constant is
/// `DECAY_NUMERATOR / DECAY_DENOMINATOR`.
pub const DECAY_DENOMINATOR: u32 = 10000;

/// Harmonic index of term `i` of the series: the fundamental is 1 and
/// each term steps up by one.
pub open spec fn harmonic_of(i: nat) -> nat {
    i + 1
}

/// Attenuation divisor of term `i`: 1 for the fundamental, doubling
/// with every further term.
pub open spec fn divisor_of(i: nat) -> nat
    decreases i,
{
    if i == 0 {
        1
    } else {
        2 * divisor_of((i - 1) as nat)
    }
}

/// The six divisors written out.
pub proof fn lemma_divisor_values()
    ensures
        divisor_of(0) == 1,
        divisor_of(1) == 2,
        divisor_of(2) == 4,
        divisor_of(3) == 8,
        divisor_of(4) == 16,
        divisor_of(5) == 32,
{
    reveal_with_fuel(divisor_of, 7);
}

/// The overtone law: every term's divisor is double the divisor of the
/// term before it, and its harmonic index steps up by one.
pub proof fn lemma_overtone_step(i: nat)
    ensures
        divisor_of(i + 1) == 2 * divisor_of(i),
        harmonic_of(i + 1) == harmonic_of(i) + 1,
{
    reveal_with_fuel(divisor_of, 2);
}

/// The pair (harmonic index, attenuation divisor) of term `i`.
pub fn harmonic_term(i: usize) -> (t: (u32, u32))
    requires
        i < HARMONIC_COUNT,
    ensures
        t.0 == harmonic_of(i as nat),
        t.1 == divisor_of(i as nat),
{
    proof {
        lemma_divisor_values();
    }
    let a = (i as u32) + 1;
    let b: u32 = if i == 0 {
        1
    } else if i == 1 {
        2
    } else if i == 2 {
        4
    } else if i == 3 {
        8
    } else if i == 4 {
        16
    } else {
        32
    };
    (a, b)
}

/// The whole series, in order.
pub fn harmonic_terms() -> (v: Vec<(u32, u32)>)
    ensures
        v@.len() == HARMONIC_COUNT,
        forall|i: int|
            0 <= i < v@.len() ==> (#[trigger] v@[i]).0 == harmonic_of(i as nat)
                && v@[i].1 == divisor_of(i as nat),
{
    let mut v: Vec<(u32, u32)> = Vec::new();
    let mut i: usize = 0;
    while i < HARMONIC_COUNT
        invariant
            i <= HARMONIC_COUNT,
            v@.len() == i,
            forall|j: int|
                0 <= j < i ==> (#[trigger] v@[j]).0 == harmonic_of(j as nat)
                    && v@[j].1 == divisor_of(j as nat),
        decreases HARMONIC_COUNT - i,
    {
        let t = harmonic_term(i);
        v.push(t);
        i += 1;
    }
    v
}

/// The integer angle numerator of one term: the sine and the damping
/// of term with harmonic index `a` are evaluated at an angle
/// proportional to `a * base_frequency * phase`.  At phase zero the
/// angle of every term is zero, so every sine factor vanishes there.
pub open spec fn angle_numerator(a: nat, phase: nat) -> nat {
    a * (BASE_FREQUENCY_HZ as nat) * phase
}

/// Boundary law at phase zero: every term's angle numerator is zero
/// there, so the summed waveform, and with it its cube, is zero.
pub proof fn lemma_zero_phase_zero_angle(a: nat)
    ensures
        angle_numerator(a, 0) == 0,
{
    assert(a * (BASE_FREQUENCY_HZ as nat) * 0 == 0) by (nonlinear_arith);
}

/// Compute the angle numerator of a term of the series.
pub fn term_angle_numerator(a: u32, phase: u32) -> (n: u64)
    requires
        a <= HARMONIC_COUNT,
    ensures
        n == angle_numerator(a as nat, phase as nat),
{
    proof {
        assert((a as int) * (BASE_FREQUENCY_HZ as int) * (phase as int) <= 36
            * (phase as int)) by (nonlinear_arith)
            requires
                a <= 6,
                0 <= phase,
        ;
    }
    (a as u64) * (BASE_FREQUENCY_HZ as u64) * (phase as u64)
}

} // verus!
