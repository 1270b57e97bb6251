//! A signal source: a table of precomputed samples read off a phase clock.
//!
//! Both signals the stream can play fit this shape.  A rendered
//! interleaved buffer is read with a stride of two (one channel of an
//! interleaved stereo rendering), and a single-period wavetable of the
//! procedural waveform is read with a stride of one.  Either way, the
//! sample for tick `n` is the table entry at `stride * (n % rate)`.

use vstd::prelude::*;

use crate::clock::PhaseClock;

verus! {

/// A table of samples driven by a [`PhaseClock`].  Each call for the
/// next sample advances the clock one tick and reads the table at
/// `stride * phase`, so the produced signal is periodic with period
/// `rate` ticks.
pub struct SampleSource {
    data: Vec<i16>,
    stride: usize,
    clock: PhaseClock,
}

impl SampleSource {
    /// The sample table this source reads.
    pub closed spec fn samples(self) -> Seq<i16> {
        self.data@
    }

    /// Distance in the table between consecutive phases.
    pub closed spec fn stride(self) -> nat {
        self.stride as nat
    }

    /// The sample rate of the driving clock.
    pub closed spec fn rate(self) -> nat {
        self.clock.rate()
    }

    /// Ticks the driving clock has taken.
    pub closed spec fn ticks(self) -> nat {
        self.clock.ticks()
    }

    /// Current wrapped phase of the driving clock.
    pub closed spec fn phase(self) -> nat {
        self.clock.phase()
    }

    /// Well-formed: the clock is well-formed, the stride is positive,
    /// and the table covers one full period at that stride, so every
    /// wrapped phase lands inside the table.
    pub closed spec fn wf(self) -> bool {
        &&& self.clock.wf()
        &&& self.stride >= 1
        &&& self.data@.len() >= (self.stride as int) * (self.clock.rate() as int)
    }

    /// The sample this source produces at tick `n`: the table entry at
    /// the wrapped phase, scaled by the stride.
    pub closed spec fn value_at(self, n: nat) -> i16 {
        self.data@[(self.stride as int) * ((n % self.rate()) as int)]
    }

    /// What the signal is, written over the public view: the sample at
    /// tick `n` is the table entry at `stride * (n % rate)`.
    pub proof fn lemma_value_at(self, n: nat)
        ensures
            self.value_at(n) == self.samples()[(self.stride() as int) * ((n
                % self.rate()) as int)],
    {
    }

    /// The phase law carried up from the clock: the phase equals the
    /// tick count modulo the rate.
    pub proof fn lemma_phase_is_ticks_mod_rate(self)
        requires
            self.wf(),
        ensures
            self.phase() == self.ticks() % self.rate(),
            self.phase() < self.rate(),
    {
        self.clock.lemma_phase_is_ticks_mod_rate();
    }

    /// Determinism of the signal: the sample at any tick depends only
    /// on the table, the stride and the rate, so two sources that were
    /// built alike produce the identical sequence of values.
    pub proof fn lemma_deterministic(a: SampleSource, b: SampleSource, n: nat)
        requires
            a.samples() == b.samples(),
            a.stride() == b.stride(),
            a.rate() == b.rate(),
        ensures
            a.value_at(n) == b.value_at(n),
    {
    }

    /// Periodicity: the signal repeats after one full period of the
    /// driving clock.
    pub proof fn lemma_periodic(self, n: nat)
        requires
            self.rate() > 0,
        ensures
            self.value_at(n + self.rate()) == self.value_at(n),
    {
        vstd::arithmetic::div_mod::lemma_mod_add_multiples_vanish(
            n as int,
            self.rate() as int,
        );
    }

    /// Build a source over `data`, read at `stride`, driven by a fresh
    /// clock at `sample_rate`.  The table must cover one full period.
    pub fn new(data: Vec<i16>, stride: usize, sample_rate: u32) -> (src: Self)
        requires
            stride >= 1,
            sample_rate > 0,
            data@.len() >= (stride as int) * (sample_rate as int),
        ensures
            src.wf(),
            src.samples() == data@,
            src.stride() == stride,
            src.rate() == sample_rate,
            src.ticks() == 0,
    {
        SampleSource { data, stride, clock: PhaseClock::new(sample_rate) }
    }

    /// Produce the sample for the current tick and advance the clock.
    pub fn next_sample(&mut self) -> (s: i16)
        requires
            old(self).wf(),
        ensures
            final(self).wf(),
            final(self).samples() == old(self).samples(),
            final(self).stride() == old(self).stride(),
            final(self).rate() == old(self).rate(),
            final(self).ticks() == old(self).ticks() + 1,
            s == old(self).value_at(old(self).ticks()),
    {
        proof {
            self.clock.lemma_phase_is_ticks_mod_rate();
        }
        let p = self.clock.next_phase();
        let table_len = self.data.len();
        proof {
            let s = self.stride as int;
            let r = old(self).clock.rate() as int;
            let l = table_len as int;
            assert(s * (p as int) < l) by (nonlinear_arith)
                requires
                    s >= 1,
                    (p as int) < r,
                    0 <= p as int,
                    l >= s * r,
            ;
        }
        let idx: usize = self.stride * (p as usize);
        self.data[idx]
    }

    /// The wrapped phase the next sample will be produced at.
    pub fn current_phase(&self) -> (p: u32)
        ensures
            p == self.phase(),
    {
        self.clock.current_phase()
    }
}

} // verus!
