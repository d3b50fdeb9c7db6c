use vstd::prelude::*;

verus! {

/// Counts down from its period and wraps around to it.
#[derive(Clone, Copy, Debug, PartialEq, Eq, Structural)]
pub struct Timer {
    pub period: u16,
    pub index: u16,
}

impl Default for Timer {
    fn default() -> (timer: Self)
        ensures timer == (Timer { period: 0, index: 0 }),
    {
        Timer { period: 0, index: 0 }
    }
}

impl Timer {
    /// The timer after one count down, and whether it wrapped around to its period.
    pub open spec fn spec_ticked(self) -> (Timer, bool) {
        if self.period == 0 {
            (Timer { index: 0, ..self }, false)
        } else if self.index == 0 {
            (Timer { index: self.period, ..self }, true)
        } else {
            (Timer { index: (self.index - 1) as u16, ..self }, false)
        }
    }

    pub fn period(&self) -> (period: u16)
        ensures period == self.period,
    {
        self.period
    }

    pub fn set_period_and_reset_index(&mut self, period: u16)
        ensures *final(self) == (Timer { period: period, index: period }),
    {
        self.period = period;
        self.index = self.period;
    }

    /// Replaces bits 8 to 10 of the period with the low three bits of `period_high`, keeping
    /// bits 0 to 7, and restarts the count.
    pub fn set_period_high_and_reset_index(&mut self, period_high: u8)
        ensures
            final(self).period == (old(self).period % 256) + (period_high % 8) * 256,
            final(self).index == final(self).period,
    {
        let old_period = self.period;
        assert((old_period & 0b0000_0000_1111_1111) | (((period_high & 0b0000_0111) as u16) << 8u16)
            == (old_period % 256) + (period_high % 8) * 256) by (bit_vector);
        self.period = self.period & 0b0000_0000_1111_1111;
        self.period = self.period | (((period_high & 0b0000_0111) as u16) << 8);
        self.index = self.period;
    }

    /// Replaces bits 0 to 7 of the period, keeping bits 8 to 10 and clearing the rest.
    pub fn set_period_low(&mut self, period_low: u8)
        ensures
            final(self).period == ((old(self).period / 256) % 8) * 256 + period_low,
            final(self).index == old(self).index,
    {
        let old_period = self.period;
        assert((old_period & 0b0000_0111_0000_0000) | (period_low as u16)
            == ((old_period / 256) % 8) * 256 + period_low) by (bit_vector);
        self.period = self.period & 0b0000_0111_0000_0000;
        self.period = self.period | (period_low as u16);
    }

    /// Counts down once; returns whether the count wrapped around to the period.
    pub fn tick(&mut self) -> (wrapped_around: bool)
        ensures
            (*final(self), wrapped_around) == old(self).spec_ticked(),
    {
        let mut wrapped_around = false;
        if self.period == 0 {
            self.index = 0;
        } else if self.index == 0 {
            self.index = self.period;
            wrapped_around = true;
        } else {
            self.index -= 1;
        }

        wrapped_around
    }
}

/// The timer after `n` ticks.
pub open spec fn ticked_times(timer: Timer, n: nat) -> Timer
    decreases n,
{
    if n == 0 {
        timer
    } else {
        ticked_times(timer, (n - 1) as nat).spec_ticked().0
    }
}

/// A timer with a nonzero period counts its index down by one per tick without wrapping, until
/// it reaches zero.
pub proof fn lemma_counts_down(timer: Timer, n: nat)
    requires
        timer.period > 0,
        n <= timer.index,
    ensures
        ticked_times(timer, n) == (Timer { index: (timer.index - n) as u16, ..timer }),
    decreases n,
{
    if n > 0 {
        lemma_counts_down(timer, (n - 1) as nat);
    }
}

/// A timer restarted at a nonzero period wraps around on its `period + 1`-th tick, and not
/// before, and is then back where it started: it wraps once every `period + 1` ticks.
pub proof fn lemma_wraps_every_period_plus_one(timer: Timer)
    requires
        timer.period > 0,
        timer.index == timer.period,
    ensures
        forall|n: nat| n < timer.period ==> !(#[trigger] ticked_times(timer, n)).spec_ticked().1,
        ticked_times(timer, timer.period as nat).spec_ticked().1,
        ticked_times(timer, (timer.period + 1) as nat) == timer,
{
    assert forall|n: nat| n < timer.period implies !(#[trigger] ticked_times(timer, n)).spec_ticked().1 by {
        lemma_counts_down(timer, n);
    }
    lemma_counts_down(timer, timer.period as nat);
}

} // verus!
