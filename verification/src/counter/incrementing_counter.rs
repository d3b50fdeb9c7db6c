use vstd::prelude::*;

use crate::counter::counter::{high_byte, lemma_bytes, lemma_with_high_byte, lemma_with_low_byte, low_byte, with_high_byte, with_low_byte};
use crate::counter::irq_counter_info::IrqCounterInfo;
use crate::counter::when_disabled_prevent::WhenDisabledPrevent;

verus! {

/// A counter that counts up towards a target.
pub struct IncrementingCounter {
    auto_triggered_by: IncAutoTriggeredBy,
    trigger_target: u16,
    when_target_reached: WhenTargetReached,
    when_disabled_prevent: Option<WhenDisabledPrevent>,

    // State
    ticking_enabled: bool,
    triggering_enabled: bool,
    count: u16,
}

/// The settings and state of an `IncrementingCounter`.
pub struct IncrementingCounterState {
    pub auto_triggered_by: IncAutoTriggeredBy,
    pub trigger_target: u16,
    pub when_target_reached: WhenTargetReached,
    pub when_disabled_prevent: Option<WhenDisabledPrevent>,
    pub ticking_enabled: bool,
    pub triggering_enabled: bool,
    pub count: u16,
}

impl View for IncrementingCounter {
    type V = IncrementingCounterState;

    closed spec fn view(&self) -> IncrementingCounterState {
        IncrementingCounterState {
            auto_triggered_by: self.auto_triggered_by,
            trigger_target: self.trigger_target,
            when_target_reached: self.when_target_reached,
            when_disabled_prevent: self.when_disabled_prevent,
            ticking_enabled: self.ticking_enabled,
            triggering_enabled: self.triggering_enabled,
            count: self.count,
        }
    }
}

impl IncrementingCounterState {
    /// The count after the counter actually ticks.
    pub open spec fn spec_ticked_count(self) -> u16 {
        if self.count == self.trigger_target && self.when_target_reached == WhenTargetReached::Stay {
            self.count
        } else if self.count == self.trigger_target && self.when_target_reached == WhenTargetReached::Clear {
            0
        } else {
            ((self.count + 1) % 0x10000) as u16
        }
    }

    /// The state after one tick, and whether the tick triggered.
    pub open spec fn spec_tick(self) -> (IncrementingCounterState, bool) {
        let new_count = if self.ticking_enabled { self.spec_ticked_count() } else { self.count };
        let trigger_if_enabled = match self.auto_triggered_by {
            IncAutoTriggeredBy::AlreadyOnTarget => self.count == self.trigger_target,
            IncAutoTriggeredBy::EndingOnTarget => new_count == self.trigger_target && self.count != new_count,
        };
        (IncrementingCounterState { count: new_count, ..self }, trigger_if_enabled && self.triggering_enabled)
    }

    pub open spec fn spec_disabled(self) -> IncrementingCounterState {
        match self.when_disabled_prevent {
            Some(WhenDisabledPrevent::Counting) => IncrementingCounterState { ticking_enabled: false, ..self },
            Some(WhenDisabledPrevent::Triggering) => IncrementingCounterState { triggering_enabled: false, ..self },
            _ => IncrementingCounterState { ticking_enabled: false, triggering_enabled: false, ..self },
        }
    }
}

impl IncrementingCounter {
    /// Enables ticking and triggering; only counters that can be disabled may be enabled.
    pub fn enable(&mut self)
        requires old(self)@.when_disabled_prevent is Some,
        ensures final(self)@ == (IncrementingCounterState { triggering_enabled: true, ticking_enabled: true, ..old(self)@ }),
    {
        self.triggering_enabled = true;
        self.ticking_enabled = true;
    }

    /// Disables what the counter's settings say; counters that are never disabled can't be.
    pub fn disable(&mut self)
        requires old(self)@.when_disabled_prevent is Some,
        ensures final(self)@ == old(self)@.spec_disabled(),
    {
        match self.when_disabled_prevent {
            None => {}
            Some(WhenDisabledPrevent::Counting) => self.ticking_enabled = false,
            Some(WhenDisabledPrevent::Triggering) => self.triggering_enabled = false,
            Some(WhenDisabledPrevent::CountingAndTriggering) => {
                self.ticking_enabled = false;
                self.triggering_enabled = false;
            }
        }
    }

    pub fn count_low_byte(&self) -> (byte: u8)
        ensures byte == low_byte(self@.count),
    {
        proof { lemma_bytes(self.count); }
        (self.count & 0xFF) as u8
    }

    pub fn count_high_byte(&self) -> (byte: u8)
        ensures byte == high_byte(self@.count),
    {
        proof { lemma_bytes(self.count); }
        (self.count >> 8) as u8
    }

    pub fn set_count_low_byte(&mut self, value: u8)
        ensures final(self)@ == (IncrementingCounterState { count: with_low_byte(old(self)@.count, value), ..old(self)@ }),
    {
        proof { lemma_with_low_byte(self.count, value); }
        self.count = (self.count & 0xFF00) | (value as u16);
    }

    pub fn set_count_high_byte(&mut self, value: u8)
        ensures final(self)@ == (IncrementingCounterState { count: with_high_byte(old(self)@.count, value), ..old(self)@ }),
    {
        proof { lemma_with_high_byte(self.count, value); }
        self.count = (self.count & 0x00FF) | ((value as u16) << 8);
    }

    pub fn clear(&mut self)
        ensures final(self)@ == (IncrementingCounterState { count: 0, ..old(self)@ }),
    {
        self.count = 0;
    }

    pub fn tick(&mut self) -> (triggered: bool)
        ensures (final(self)@, triggered) == old(self)@.spec_tick(),
    {
        let old_count = self.count;
        if self.ticking_enabled {
            let target_reached = self.count == self.trigger_target;
            match (target_reached, self.when_target_reached) {
                (true, WhenTargetReached::Stay) => { /* Stay on the old count. */ }
                (true, WhenTargetReached::Clear) => self.count = 0,
                (false, _) | (_, WhenTargetReached::Continue) => self.count = self.count.wrapping_add(1),
            }
        }

        let new_count = self.count;
        let trigger_if_enabled = match self.auto_triggered_by {
            IncAutoTriggeredBy::AlreadyOnTarget => old_count == self.trigger_target,
            IncAutoTriggeredBy::EndingOnTarget => new_count == self.trigger_target && old_count != new_count,
        };
        let triggered = trigger_if_enabled && self.triggering_enabled;
        triggered
    }

    pub fn to_irq_counter_info(&self) -> (info: IrqCounterInfo)
        ensures
            info == (IrqCounterInfo {
                counting_enabled: self@.ticking_enabled,
                triggering_enabled: self@.triggering_enabled,
                count: self@.count,
            }),
    {
        IrqCounterInfo { counting_enabled: self.ticking_enabled, triggering_enabled: self.triggering_enabled, count: self.count }
    }
}

/// Collects the settings of an incrementing counter, then builds it.
#[derive(Clone, Copy)]
pub struct IncrementingCounterBuilder {
    pub auto_triggered_by: Option<IncAutoTriggeredBy>,
    pub trigger_target: Option<u16>,
    pub when_target_reached: Option<WhenTargetReached>,
    pub when_disabled_prevent: Option<Option<WhenDisabledPrevent>>,
}

impl IncrementingCounterBuilder {
    pub fn new() -> (builder: Self)
        ensures
            builder == (IncrementingCounterBuilder {
                auto_triggered_by: None,
                trigger_target: None,
                when_target_reached: None,
                when_disabled_prevent: None,
            }),
    {
        Self {
            auto_triggered_by: None,
            trigger_target: None,
            when_target_reached: None,
            when_disabled_prevent: None,
        }
    }

    pub fn auto_triggered_by(&mut self, auto_triggered_by: IncAutoTriggeredBy) -> (builder: &mut Self)
        ensures
            *builder == (IncrementingCounterBuilder { auto_triggered_by: Some(auto_triggered_by), ..*old(self) }),
            *final(self) == *final(builder),
    {
        self.auto_triggered_by = Some(auto_triggered_by);
        self
    }

    pub fn trigger_target(&mut self, trigger_target: u16) -> (builder: &mut Self)
        ensures
            *builder == (IncrementingCounterBuilder { trigger_target: Some(trigger_target), ..*old(self) }),
            *final(self) == *final(builder),
    {
        self.trigger_target = Some(trigger_target);
        self
    }

    pub fn when_target_reached(&mut self, when_target_reached: WhenTargetReached) -> (builder: &mut Self)
        ensures
            *builder == (IncrementingCounterBuilder { when_target_reached: Some(when_target_reached), ..*old(self) }),
            *final(self) == *final(builder),
    {
        self.when_target_reached = Some(when_target_reached);
        self
    }

    pub fn when_disabled_prevent(&mut self, when_disabled_prevent: WhenDisabledPrevent) -> (builder: &mut Self)
        ensures
            *builder == (IncrementingCounterBuilder { when_disabled_prevent: Some(Some(when_disabled_prevent)), ..*old(self) }),
            *final(self) == *final(builder),
    {
        self.when_disabled_prevent = Some(Some(when_disabled_prevent));
        self
    }

    /// For IRQs that can't be disabled.
    pub fn never_disabled(&mut self) -> (builder: &mut Self)
        ensures
            *builder == (IncrementingCounterBuilder { when_disabled_prevent: Some(None), ..*old(self) }),
            *final(self) == *final(builder),
    {
        self.when_disabled_prevent = Some(None);
        self
    }

    /// Builds the counter, which starts enabled at count 0; every setting must be given.
    pub fn build(self) -> (counter: IncrementingCounter)
        requires
            self.auto_triggered_by is Some,
            self.trigger_target is Some,
            self.when_target_reached is Some,
            self.when_disabled_prevent is Some,
        ensures
            counter@ == (IncrementingCounterState {
                auto_triggered_by: self.auto_triggered_by.unwrap(),
                trigger_target: self.trigger_target.unwrap(),
                when_target_reached: self.when_target_reached.unwrap(),
                when_disabled_prevent: self.when_disabled_prevent.unwrap(),
                ticking_enabled: true,
                triggering_enabled: true,
                count: 0,
            }),
    {
        IncrementingCounter {
            auto_triggered_by: self.auto_triggered_by.unwrap(),
            trigger_target: self.trigger_target.unwrap(),
            when_target_reached: self.when_target_reached.unwrap(),
            when_disabled_prevent: self.when_disabled_prevent.unwrap(),
            ticking_enabled: true,
            triggering_enabled: true,
            count: 0,
        }
    }
}

/// When an incrementing counter triggers on its own.
#[derive(Clone, Copy, Debug, PartialEq, Eq, Structural)]
pub enum IncAutoTriggeredBy {
    AlreadyOnTarget,
    EndingOnTarget,
}

/// What an incrementing counter does once it reaches its target.
#[derive(PartialEq, Eq, Clone, Copy, Debug, Structural)]
pub enum WhenTargetReached {
    Stay,
    Clear,
    Continue,
}

/// Law of the incrementing counter's tick. A ticking counter goes up by one, wrapping at 0x10000,
/// except at its target, where it stays or goes back to 0 as its settings say; a counter that
/// doesn't tick keeps its count. It triggers only while triggering is enabled: with
/// `AlreadyOnTarget` when the count before the tick was the target, with `EndingOnTarget` when
/// the tick moved the count onto the target.
#[verifier::spinoff_prover]
pub proof fn lemma_incrementing_tick(state: IncrementingCounterState)
    ensures
        ({
            let (after, triggered) = state.spec_tick();
            &&& state.ticking_enabled && state.count != state.trigger_target ==> after.count == (state.count + 1) % 0x10000
            &&& state.ticking_enabled && state.count == state.trigger_target
                && state.when_target_reached == WhenTargetReached::Stay ==> after.count == state.count
            &&& state.ticking_enabled && state.count == state.trigger_target
                && state.when_target_reached == WhenTargetReached::Clear ==> after.count == 0
            &&& !state.ticking_enabled ==> after.count == state.count
            &&& state.auto_triggered_by == IncAutoTriggeredBy::AlreadyOnTarget
                ==> triggered == (state.triggering_enabled && state.count == state.trigger_target)
            &&& state.auto_triggered_by == IncAutoTriggeredBy::EndingOnTarget
                ==> triggered == (state.triggering_enabled && after.count == state.trigger_target
                    && after.count != state.count)
        }),
{
}

} // verus!
