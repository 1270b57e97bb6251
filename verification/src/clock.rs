//! The phase clock: elapsed samples, wrapped modulo the sample rate.

use vstd::prelude::*;

verus! {

/// An elapsed-sample counter for a stream running at a fixed sample
/// rate.  Each frame asks the clock for the phase to synthesize at and
/// advances it by one; the stored phase wraps modulo the sample rate,
/// so it never grows unbounded.  The total tick count is kept as ghost
/// state, which lets the contracts pin the phase of every frame.
pub struct PhaseClock {
    phase: u32,
    sample_rate: u32,
    ticks: Ghost<nat>,
}

impl PhaseClock {
    /// Total number of ticks taken since the clock was started.
    pub closed spec fn ticks(self) -> nat {
        self.ticks@
    }

    /// The sample rate the clock wraps at.
    pub closed spec fn rate(self) -> nat {
        self.sample_rate as nat
    }

    /// Current wrapped position within one period.
    pub closed spec fn phase(self) -> nat {
        self.phase as nat
    }

    /// Well-formed: the rate is positive and the stored phase is the
    /// tick count reduced modulo the rate.
    pub closed spec fn wf(self) -> bool {
        &&& self.sample_rate > 0
        &&& self.phase as nat == self.ticks@ % (self.sample_rate as nat)
    }

    /// Wrap-around law: in every reachable state the phase equals the
    /// number of ticks taken so far, modulo the sample rate.  So the
    /// phase used at frame `n` of a freshly started clock is exactly
    /// `n % rate`, independent of how far the stream has run.
    pub proof fn lemma_phase_is_ticks_mod_rate(self)
        requires
            self.wf(),
        ensures
            self.phase() == self.ticks() % self.rate(),
            self.phase() < self.rate(),
    {
    }

    /// A freshly started clock: no ticks taken, phase zero.
    pub fn new(sample_rate: u32) -> (c: Self)
        requires
            sample_rate > 0,
        ensures
            c.wf(),
            c.rate() == sample_rate,
            c.ticks() == 0,
            c.phase() == 0,
    {
        proof {
            vstd::arithmetic::div_mod::lemma_small_mod(0, sample_rate as nat);
        }
        PhaseClock { phase: 0, sample_rate, ticks: Ghost(0nat) }
    }

    /// Read the phase for the current frame, then advance by one tick
    /// and wrap modulo the sample rate.
    pub fn next_phase(&mut self) -> (p: u32)
        requires
            old(self).wf(),
        ensures
            final(self).wf(),
            final(self).rate() == old(self).rate(),
            final(self).ticks() == old(self).ticks() + 1,
            p == old(self).phase(),
            p as nat == old(self).ticks() % old(self).rate(),
    {
        let p = self.phase;
        self.phase = (self.phase + 1) % self.sample_rate;
        proof {
            let n = self.ticks@ as int;
            let r = self.sample_rate as int;
            vstd::arithmetic::div_mod::lemma_add_mod_noop(n, 1, r);
            if r > 1 {
                vstd::arithmetic::div_mod::lemma_small_mod(1, r as nat);
            } else {
                vstd::arithmetic::div_mod::lemma_mod_multiples_basic(n + 1, 1);
            }
        }
        self.ticks = Ghost(self.ticks@ + 1);
        p
    }

    /// The wrapped phase the next frame will be synthesized at.
    pub fn current_phase(&self) -> (p: u32)
        ensures
            p == self.phase(),
    {
        self.phase
    }

    /// The sample rate this clock was started with.
    pub fn sample_rate(&self) -> (r: u32)
        ensures
            r == self.rate(),
    {
        self.sample_rate
    }
}

} // verus!
