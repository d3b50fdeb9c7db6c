use vstd::prelude::*;

use crate::counter::irq_counter_info::IrqCounterInfo;
pub use crate::counter::when_disabled_prevent::WhenDisabledPrevent;

verus! {

/// The value that `count + step` saturates to within the range of a `u16`.
pub open spec fn saturating_step(count: u16, step: i8) -> u16 {
    if count + step < 0 {
        0
    } else if count + step > 0xFFFF {
        0xFFFF
    } else {
        (count + step) as u16
    }
}

/// The low byte of a 16-bit value.
pub open spec fn low_byte(value: u16) -> u8 {
    (value % 256) as u8
}

/// The high byte of a 16-bit value.
pub open spec fn high_byte(value: u16) -> u8 {
    (value / 256) as u8
}

/// `value` with its low byte replaced.
pub open spec fn with_low_byte(value: u16, low: u8) -> u16 {
    ((value / 256) * 256 + low) as u16
}

/// `value` with its high byte replaced.
pub open spec fn with_high_byte(value: u16, high: u8) -> u16 {
    (high * 256 + value % 256) as u16
}

/// `value` with the 4-bit group at position `index` (0 is the lowest) replaced by `nybble`.
pub open spec fn with_nybble(value: u16, index: int, nybble: u8) -> u16
    recommends 0 <= index < 4, nybble < 16,
{
    let unit: int = if index == 0 { 1 } else if index == 1 { 16 } else if index == 2 { 256 } else { 4096 };
    (value - (((value as int) / unit) % 16) * unit + nybble * unit) as u16
}

pub proof fn lemma_with_low_byte(value: u16, low: u8)
    ensures
        (value & 0xFF00) | (low as u16) == with_low_byte(value, low),
        low_byte(with_low_byte(value, low)) == low,
        high_byte(with_low_byte(value, low)) == high_byte(value),
{
    assert((value & 0xFF00) | (low as u16) == ((value / 256) * 256 + low) as u16) by (bit_vector);
}

pub proof fn lemma_with_high_byte(value: u16, high: u8)
    ensures
        (value & 0x00FF) | ((high as u16) << 8u16) == with_high_byte(value, high),
        high_byte(with_high_byte(value, high)) == high,
        low_byte(with_high_byte(value, high)) == low_byte(value),
{
    assert((value & 0x00FF) | ((high as u16) << 8u16) == (high * 256 + value % 256) as u16) by (bit_vector);
}

pub proof fn lemma_bytes(value: u16)
    ensures
        (value & 0xFF) as u8 == low_byte(value),
        (value >> 8u16) as u8 == high_byte(value),
{
    assert((value & 0xFF) as u8 == (value % 256) as u8) by (bit_vector);
    assert((value >> 8u16) as u8 == (value / 256) as u8) by (bit_vector);
}

/// A counter where the count can be set directly, and can't be force-reloaded.
pub struct DirectlySetCounter(Counter);

impl View for DirectlySetCounter {
    type V = Counter;

    closed spec fn view(&self) -> Counter {
        self.0
    }
}

impl DirectlySetCounter {
    /// The counter's settings are consistent.
    pub open spec fn wf(&self) -> bool {
        self@.inv()
    }

    pub fn enable(&mut self)
        requires old(self).wf(),
        ensures final(self).wf(), final(self)@ == old(self)@.spec_enabled(),
    {
        self.0.enable();
    }

    pub fn disable(&mut self)
        requires old(self).wf(),
        ensures final(self).wf(), final(self)@ == old(self)@.spec_disabled(),
    {
        self.0.disable();
    }

    pub fn set_enabled(&mut self, enabled: bool)
        requires old(self).wf(),
        ensures
            final(self).wf(),
            final(self)@ == if enabled { old(self)@.spec_enabled() } else { old(self)@.spec_disabled() },
    {
        self.0.set_enabled(enabled);
    }

    pub fn tick(&mut self) -> (result: TickResult)
        requires
            old(self).wf(),
            !old(self)@.spec_tick_steps_over_target(false),
        ensures
            final(self).wf(),
            (final(self)@, result) == old(self)@.spec_tick(false, false),
    {
        self.0.tick(false, false)
    }

    pub fn to_irq_counter_info(&self) -> (info: IrqCounterInfo)
        ensures info == self@.spec_irq_counter_info(),
    {
        self.0.to_irq_counter_info()
    }

    pub fn count_low_byte(&self) -> (byte: u8)
        ensures byte == low_byte(self@.count),
    {
        proof { lemma_bytes(self.0.count); }
        (self.0.count & 0xFF) as u8
    }

    pub fn count_high_byte(&self) -> (byte: u8)
        ensures byte == high_byte(self@.count),
    {
        proof { lemma_bytes(self.0.count); }
        (self.0.count >> 8) as u8
    }

    pub fn set_count(&mut self, count: u8)
        requires old(self).wf(),
        ensures final(self).wf(), final(self)@ == (Counter { count: count as u16, ..old(self)@ }),
    {
        self.0.count = count as u16;
    }

    pub fn set_count_low_byte(&mut self, value: u8)
        requires old(self).wf(),
        ensures
            final(self).wf(),
            final(self)@ == (Counter { count: with_low_byte(old(self)@.count, value), ..old(self)@ }),
    {
        proof { lemma_with_low_byte(self.0.count, value); }
        self.0.count = (self.0.count & 0xFF00) | (value as u16);
    }

    pub fn set_count_high_byte(&mut self, value: u8)
        requires old(self).wf(),
        ensures
            final(self).wf(),
            final(self)@ == (Counter { count: with_high_byte(old(self)@.count, value), ..old(self)@ }),
    {
        proof { lemma_with_high_byte(self.0.count, value); }
        self.0.count = (self.0.count & 0x00FF) | ((value as u16) << 8);
    }

    /// Sets the amount the count changes by on each tick; a step of zero is not allowed.
    pub fn set_step(&mut self, step: i8)
        requires old(self).wf(), step != 0,
        ensures final(self).wf(), final(self)@ == (Counter { step: step, ..old(self)@ }),
    {
        self.0.step = step;
    }

    pub fn set_prescaler_count(&mut self, count: u8)
        requires old(self).wf(),
        ensures
            final(self).wf(),
            final(self)@ == (Counter { prescaler: Prescaler { count: count, ..old(self)@.prescaler }, ..old(self)@ }),
    {
        self.0.prescaler.count = count;
    }

    pub fn set_prescaler_mask(&mut self, mask: u8)
        requires old(self).wf(),
        ensures
            final(self).wf(),
            final(self)@ == (Counter { prescaler: Prescaler { mask: mask, ..old(self)@.prescaler }, ..old(self)@ }),
    {
        self.0.prescaler.mask = mask;
    }

    /// Sets the prescaler's step; a step of zero is not allowed.
    pub fn set_prescaler_step(&mut self, step: i8)
        requires old(self).wf(), step != 0,
        ensures
            final(self).wf(),
            final(self)@ == (Counter { prescaler: Prescaler { step: step, ..old(self)@.prescaler }, ..old(self)@ }),
    {
        self.0.prescaler.step = step;
    }

    // The vast majority of use-cases should just call enable/disable instead of this.
    pub fn set_counting_enabled(&mut self, counting_enabled: bool)
        requires old(self).wf(),
        ensures final(self).wf(), final(self)@ == (Counter { counting_enabled: counting_enabled, ..old(self)@ }),
    {
        self.0.counting_enabled = counting_enabled;
    }

    // The vast majority of use-cases should just call enable/disable instead of this.
    pub fn enable_counting(&mut self)
        requires old(self).wf(),
        ensures final(self).wf(), final(self)@ == (Counter { counting_enabled: true, ..old(self)@ }),
    {
        self.0.counting_enabled = true;
    }

    // The vast majority of use-cases should just call enable/disable instead of this.
    pub fn disable_counting(&mut self)
        requires old(self).wf(),
        ensures final(self).wf(), final(self)@ == (Counter { counting_enabled: false, ..old(self)@ }),
    {
        self.0.counting_enabled = false;
    }

    // The vast majority of use-cases should just call enable/disable instead of this.
    pub fn set_triggering_enabled(&mut self, triggering_enabled: bool)
        requires old(self).wf(),
        ensures final(self).wf(), final(self)@ == (Counter { triggering_enabled: triggering_enabled, ..old(self)@ }),
    {
        self.0.triggering_enabled = triggering_enabled;
    }

    // The vast majority of use-cases should just call enable/disable instead of this.
    pub fn enable_triggering(&mut self)
        requires old(self).wf(),
        ensures final(self).wf(), final(self)@ == (Counter { triggering_enabled: true, ..old(self)@ }),
    {
        self.0.triggering_enabled = true;
    }

    // The vast majority of use-cases should just call enable/disable instead of this.
    pub fn disable_triggering(&mut self)
        requires old(self).wf(),
        ensures final(self).wf(), final(self)@ == (Counter { triggering_enabled: false, ..old(self)@ }),
    {
        self.0.triggering_enabled = false;
    }
}

/// A counter where the count can only be set by reloading through a reload value.
pub struct ReloadDrivenCounter {
    counter: Counter,
    forced_reload_timing: ForcedReloadTiming,
    trigger_on_forced_reload_with_target_count: bool,
    forced_reload_pending: bool,
}

/// The state of a `ReloadDrivenCounter`.
pub struct ReloadDrivenCounterState {
    pub counter: Counter,
    pub forced_reload_timing: ForcedReloadTiming,
    pub trigger_on_forced_reload_with_target_count: bool,
    pub forced_reload_pending: bool,
}

impl View for ReloadDrivenCounter {
    type V = ReloadDrivenCounterState;

    closed spec fn view(&self) -> ReloadDrivenCounterState {
        ReloadDrivenCounterState {
            counter: self.counter,
            forced_reload_timing: self.forced_reload_timing,
            trigger_on_forced_reload_with_target_count: self.trigger_on_forced_reload_with_target_count,
            forced_reload_pending: self.forced_reload_pending,
        }
    }
}

impl ReloadDrivenCounterState {
    /// The settings of the counter are consistent.
    pub open spec fn inv(self) -> bool {
        self.counter.inv()
    }

    /// The state after the counter's reload value has been replaced by `value`.
    pub open spec fn with_reload_value(self, value: u16) -> ReloadDrivenCounterState {
        ReloadDrivenCounterState { counter: self.counter.spec_with_reload_value(value), ..self }
    }

    /// Whether a tick triggers because of a pending forced reload to the target count.
    pub open spec fn spec_triggered_by_forcing(self) -> bool {
        self.trigger_on_forced_reload_with_target_count
            && self.forced_reload_pending
            && self.counter.spec_reload_value() == self.counter.spec_target_count()
    }

    /// The state and result after one tick.
    pub open spec fn spec_tick(self) -> (ReloadDrivenCounterState, TickResult) {
        let (counter, result) = self.counter.spec_tick(self.forced_reload_pending, self.spec_triggered_by_forcing());
        (
            ReloadDrivenCounterState {
                counter: counter,
                forced_reload_pending: if result.skipped { self.forced_reload_pending } else { false },
                ..self
            },
            result,
        )
    }

    /// The state after a forced reload.
    pub open spec fn spec_force_reload(self) -> ReloadDrivenCounterState {
        let prescaler = if self.counter.prescaler.behavior_on_forced_reload == PrescalerBehaviorOnForcedReload::ClearCount {
            Prescaler { count: 0, ..self.counter.prescaler }
        } else {
            self.counter.prescaler
        };
        let counter = Counter { prescaler: prescaler, ..self.counter };
        match self.forced_reload_timing {
            ForcedReloadTiming::Immediate => ReloadDrivenCounterState {
                counter: Counter { count: counter.spec_reload_value(), ..counter },
                ..self
            },
            ForcedReloadTiming::OnNextTick => ReloadDrivenCounterState {
                counter: counter,
                forced_reload_pending: true,
                ..self
            },
        }
    }
}

impl ReloadDrivenCounter {
    /// The counter's settings are consistent.
    pub open spec fn wf(&self) -> bool {
        self@.inv()
    }

    pub fn enable(&mut self)
        requires old(self).wf(),
        ensures
            final(self).wf(),
            final(self)@ == (ReloadDrivenCounterState { counter: old(self)@.counter.spec_enabled(), ..old(self)@ }),
    {
        self.counter.enable();
    }

    pub fn disable(&mut self)
        requires old(self).wf(),
        ensures
            final(self).wf(),
            final(self)@ == (ReloadDrivenCounterState { counter: old(self)@.counter.spec_disabled(), ..old(self)@ }),
    {
        self.counter.disable();
    }

    pub fn set_enabled(&mut self, enabled: bool)
        requires old(self).wf(),
        ensures
            final(self).wf(),
            final(self)@ == (ReloadDrivenCounterState {
                counter: if enabled { old(self)@.counter.spec_enabled() } else { old(self)@.counter.spec_disabled() },
                ..old(self)@
            }),
    {
        self.counter.set_enabled(enabled);
    }

    pub fn to_irq_counter_info(&self) -> (info: IrqCounterInfo)
        ensures info == self@.counter.spec_irq_counter_info(),
    {
        self.counter.to_irq_counter_info()
    }

    /// The reload value is the lower end of the current range when counting up, the upper end
    /// when counting down. Setting it must keep the current range inside the full range.
    pub fn set_reload_value(&mut self, value: u8)
        requires old(self).wf(), old(self)@.counter.spec_reload_value_ok(value as u16),
        ensures final(self).wf(), final(self)@ == old(self)@.with_reload_value(value as u16),
    {
        self.counter.modify_reload_value(value as u16);
    }

    pub fn set_reload_value_low_byte(&mut self, low_byte: u8)
        requires
            old(self).wf(),
            old(self)@.counter.spec_reload_value_ok(with_low_byte(old(self)@.counter.spec_reload_value(), low_byte)),
        ensures
            final(self).wf(),
            final(self)@ == old(self)@.with_reload_value(with_low_byte(old(self)@.counter.spec_reload_value(), low_byte)),
    {
        let reload_value = self.counter.reload_value();
        proof { lemma_with_low_byte(reload_value, low_byte); }
        self.counter.modify_reload_value((reload_value & 0xFF00) | (low_byte as u16));
    }

    pub fn set_reload_value_high_byte(&mut self, high_byte: u8)
        requires
            old(self).wf(),
            old(self)@.counter.spec_reload_value_ok(with_high_byte(old(self)@.counter.spec_reload_value(), high_byte)),
        ensures
            final(self).wf(),
            final(self)@ == old(self)@.with_reload_value(with_high_byte(old(self)@.counter.spec_reload_value(), high_byte)),
    {
        let reload_value = self.counter.reload_value();
        proof { lemma_with_high_byte(reload_value, high_byte); }
        self.counter.modify_reload_value((reload_value & 0x00FF) | ((high_byte as u16) << 8));
    }

    /// Replaces bits 0 to 3 of the reload value; `nibble` must fit in 4 bits.
    pub fn set_reload_value_lowest_nybble(&mut self, nibble: u8)
        requires
            old(self).wf(),
            nibble < 16,
            old(self)@.counter.spec_reload_value_ok(with_nybble(old(self)@.counter.spec_reload_value(), 0, nibble)),
        ensures
            final(self).wf(),
            final(self)@ == old(self)@.with_reload_value(with_nybble(old(self)@.counter.spec_reload_value(), 0, nibble)),
    {
        let r = self.counter.reload_value();
        assert((r & 0xFFF0) | (nibble as u16) == (r - ((r / 1) % 16) * 1 + nibble * 1) as u16) by (bit_vector)
            requires nibble < 16;
        self.counter.modify_reload_value((r & 0xFFF0) | (nibble as u16));
    }

    /// Replaces bits 4 to 7 of the reload value; `nibble` must fit in 4 bits.
    pub fn set_reload_value_second_lowest_nybble(&mut self, nibble: u8)
        requires
            old(self).wf(),
            nibble < 16,
            old(self)@.counter.spec_reload_value_ok(with_nybble(old(self)@.counter.spec_reload_value(), 1, nibble)),
        ensures
            final(self).wf(),
            final(self)@ == old(self)@.with_reload_value(with_nybble(old(self)@.counter.spec_reload_value(), 1, nibble)),
    {
        let r = self.counter.reload_value();
        assert((r & 0xFF0F) | ((nibble as u16) << 4u16) == (r - ((r / 16) % 16) * 16 + nibble * 16) as u16) by (bit_vector)
            requires nibble < 16;
        self.counter.modify_reload_value((r & 0xFF0F) | ((nibble as u16) << 4));
    }

    /// Replaces bits 8 to 11 of the reload value; `nibble` must fit in 4 bits.
    pub fn set_reload_value_second_highest_nybble(&mut self, nibble: u8)
        requires
            old(self).wf(),
            nibble < 16,
            old(self)@.counter.spec_reload_value_ok(with_nybble(old(self)@.counter.spec_reload_value(), 2, nibble)),
        ensures
            final(self).wf(),
            final(self)@ == old(self)@.with_reload_value(with_nybble(old(self)@.counter.spec_reload_value(), 2, nibble)),
    {
        let r = self.counter.reload_value();
        assert((r & 0xF0FF) | ((nibble as u16) << 8u16) == (r - ((r / 256) % 16) * 256 + nibble * 256) as u16) by (bit_vector)
            requires nibble < 16;
        self.counter.modify_reload_value((r & 0xF0FF) | ((nibble as u16) << 8));
    }

    /// Replaces bits 12 to 15 of the reload value; `nibble` must fit in 4 bits.
    pub fn set_reload_value_highest_nybble(&mut self, nibble: u8)
        requires
            old(self).wf(),
            nibble < 16,
            old(self)@.counter.spec_reload_value_ok(with_nybble(old(self)@.counter.spec_reload_value(), 3, nibble)),
        ensures
            final(self).wf(),
            final(self)@ == old(self)@.with_reload_value(with_nybble(old(self)@.counter.spec_reload_value(), 3, nibble)),
    {
        let r = self.counter.reload_value();
        assert((r & 0x0FFF) | ((nibble as u16) << 12u16) == (r - ((r / 4096) % 16) * 4096 + nibble * 4096) as u16) by (bit_vector)
            requires nibble < 16;
        self.counter.modify_reload_value((r & 0x0FFF) | ((nibble as u16) << 12));
    }

    pub fn force_reload(&mut self)
        requires old(self).wf(),
        ensures final(self).wf(), final(self)@ == old(self)@.spec_force_reload(),
    {
        if self.counter.prescaler.behavior_on_forced_reload == PrescalerBehaviorOnForcedReload::ClearCount {
            self.counter.prescaler.count = 0;
        }

        match self.forced_reload_timing {
            ForcedReloadTiming::Immediate => self.counter.count = self.counter.reload_value(),
            ForcedReloadTiming::OnNextTick => self.forced_reload_pending = true,
        }
    }

    pub fn tick(&mut self) -> (result: TickResult)
        requires
            old(self).wf(),
            !old(self)@.counter.spec_tick_steps_over_target(old(self)@.forced_reload_pending),
        ensures
            final(self).wf(),
            (final(self)@, result) == old(self)@.spec_tick(),
    {
        let triggered_by_forcing = self.trigger_on_forced_reload_with_target_count
            && self.forced_reload_pending
            && self.counter.reload_value() == self.counter.target_count();

        let result = self.counter.tick(self.forced_reload_pending, triggered_by_forcing);
        if !result.skipped {
            self.forced_reload_pending = false;
        }

        result
    }
}

/// The configuration and state shared by all counters of this module.
#[derive(Clone, Copy)]
pub struct Counter {
    pub full_range: Range,
    pub current_range: Range,
    pub wraps: bool,

    // Settings fixed when the counter is built.
    pub step: i8,
    pub auto_triggered_by: AutoTriggerWhen,
    pub when_disabled_prevent: WhenDisabledPrevent,

    // State
    pub triggering_enabled: bool,
    pub counting_enabled: bool,
    pub count: u16,
    pub prescaler: Prescaler,
}

impl Counter {
    /// The settings are consistent: a nonzero step, ordered ranges and a valid prescaler.
    pub open spec fn inv(self) -> bool {
        &&& self.step != 0
        &&& self.full_range.min <= self.full_range.max
        &&& self.current_range.min <= self.current_range.max
        &&& self.prescaler.inv()
    }

    pub open spec fn spec_enabled(self) -> Counter {
        Counter { triggering_enabled: true, counting_enabled: true, ..self }
    }

    pub open spec fn spec_disabled(self) -> Counter {
        match self.when_disabled_prevent {
            WhenDisabledPrevent::Counting => Counter { counting_enabled: false, ..self },
            WhenDisabledPrevent::Triggering => Counter { triggering_enabled: false, ..self },
            WhenDisabledPrevent::CountingAndTriggering =>
                Counter { counting_enabled: false, triggering_enabled: false, ..self },
        }
    }

    /// The count the counter starts from after a reload.
    pub open spec fn spec_reload_value(self) -> u16 {
        if self.step > 0 { self.current_range.min } else { self.current_range.max }
    }

    /// The count at which the counter stops or wraps.
    pub open spec fn spec_end_count(self) -> u16 {
        if self.step > 0 { self.current_range.max } else { self.current_range.min }
    }

    /// The count that auto-triggering compares against.
    pub open spec fn spec_target_count(self) -> u16 {
        match self.auto_triggered_by {
            AutoTriggerWhen::Wrapping => self.spec_reload_value(),
            AutoTriggerWhen::EndingOn(end_count) => end_count,
            AutoTriggerWhen::StepSizedTransitionTo(end_count) => end_count,
        }
    }

    /// Whether replacing the reload value by `value` keeps the ranges valid.
    pub open spec fn spec_reload_value_ok(self, value: u16) -> bool {
        if self.step > 0 {
            value <= self.current_range.max && self.full_range.min <= value
                && self.current_range.max <= self.full_range.max
        } else {
            self.current_range.min <= value && value <= self.full_range.max
                && self.full_range.min <= self.current_range.min
        }
    }

    pub open spec fn spec_with_reload_value(self, value: u16) -> Counter {
        if self.step > 0 {
            Counter { current_range: Range { min: value, max: self.current_range.max }, ..self }
        } else {
            Counter { current_range: Range { min: self.current_range.min, max: value }, ..self }
        }
    }

    /// A tick would step past the target count without landing on it: the counter does not
    /// allow this.
    pub open spec fn spec_tick_steps_over_target(self, forced_reload_pending: bool) -> bool {
        let old_count = self.count;
        let new_count = saturating_step(old_count, self.step);
        let target = self.spec_target_count();
        &&& self.counting_enabled
        &&& self.prescaler.spec_triggers()
        &&& !forced_reload_pending
        &&& old_count != self.spec_end_count()
        &&& old_count != target
        &&& new_count != target
        &&& (new_count > target) != (old_count > target)
    }

    /// The new count and whether the counter wrapped, when the counter actually counts.
    pub open spec fn spec_counted(self, forced_reload_pending: bool) -> (u16, bool) {
        if forced_reload_pending {
            (self.spec_reload_value(), false)
        } else if self.count != self.spec_end_count() {
            (saturating_step(self.count, self.step), false)
        } else if self.wraps {
            (self.spec_reload_value(), true)
        } else {
            (self.count, false)
        }
    }

    pub open spec fn spec_auto_triggered(self, old_count: u16, new_count: u16, wrapped: bool) -> bool {
        match self.auto_triggered_by {
            AutoTriggerWhen::Wrapping => wrapped,
            AutoTriggerWhen::EndingOn(_) => new_count == self.spec_target_count(),
            AutoTriggerWhen::StepSizedTransitionTo(_) =>
                self.spec_target_count() - old_count == self.step && new_count == self.spec_target_count(),
        }
    }

    /// The counter and the result after one tick.
    pub open spec fn spec_tick(self, forced_reload_pending: bool, triggered_by_forcing: bool) -> (Counter, TickResult) {
        if self.counting_enabled && !self.prescaler.spec_triggers() {
            (
                Counter { prescaler: self.prescaler.spec_ticked(), ..self },
                TickResult { skipped: true, wrapped: false, triggered: false },
            )
        } else {
            let (new_count, wrapped) = if self.counting_enabled {
                self.spec_counted(forced_reload_pending)
            } else {
                (self.count, false)
            };
            let prescaler = if self.counting_enabled { self.prescaler.spec_ticked() } else { self.prescaler };
            let auto_triggered = self.spec_auto_triggered(self.count, new_count, wrapped);
            (
                Counter { count: new_count, prescaler: prescaler, ..self },
                TickResult {
                    skipped: false,
                    wrapped: wrapped,
                    triggered: (auto_triggered || triggered_by_forcing) && self.triggering_enabled,
                },
            )
        }
    }

    pub open spec fn spec_irq_counter_info(self) -> IrqCounterInfo {
        IrqCounterInfo {
            counting_enabled: self.counting_enabled,
            triggering_enabled: self.triggering_enabled,
            count: self.count,
        }
    }

    fn enable(&mut self)
        ensures *final(self) == old(self).spec_enabled(),
    {
        self.triggering_enabled = true;
        self.counting_enabled = true;
    }

    fn disable(&mut self)
        ensures *final(self) == old(self).spec_disabled(),
    {
        match self.when_disabled_prevent {
            WhenDisabledPrevent::Counting => self.counting_enabled = false,
            WhenDisabledPrevent::Triggering => self.triggering_enabled = false,
            WhenDisabledPrevent::CountingAndTriggering => {
                self.counting_enabled = false;
                self.triggering_enabled = false;
            }
        }
    }

    fn set_enabled(&mut self, enabled: bool)
        ensures *final(self) == if enabled { old(self).spec_enabled() } else { old(self).spec_disabled() },
    {
        if enabled {
            self.enable();
        } else {
            self.disable();
        }
    }

    fn target_count(&self) -> (count: u16)
        ensures count == self.spec_target_count(),
    {
        match self.auto_triggered_by {
            AutoTriggerWhen::Wrapping => self.reload_value(),
            AutoTriggerWhen::EndingOn(end_count) => end_count,
            AutoTriggerWhen::StepSizedTransitionTo(end_count) => end_count,
        }
    }

    fn end_count(&self) -> (count: u16)
        ensures count == self.spec_end_count(),
    {
        if self.step > 0 {
            self.current_range.max
        } else {
            self.current_range.min
        }
    }

    fn reload_value(&self) -> (count: u16)
        ensures count == self.spec_reload_value(),
    {
        if self.step > 0 {
            self.current_range.min
        } else {
            self.current_range.max
        }
    }

    fn modify_reload_value(&mut self, value: u16)
        requires old(self).inv(), old(self).spec_reload_value_ok(value),
        ensures final(self).inv(), *final(self) == old(self).spec_with_reload_value(value),
    {
        if self.step > 0 {
            self.current_range = Range::new(value, self.current_range.max);
        } else {
            self.current_range = Range::new(self.current_range.min, value);
        }
    }

    fn tick(&mut self, forced_reload_pending: bool, triggered_by_forcing: bool) -> (result: TickResult)
        requires
            old(self).inv(),
            !old(self).spec_tick_steps_over_target(forced_reload_pending),
        ensures
            final(self).inv(),
            (*final(self), result) == old(self).spec_tick(forced_reload_pending, triggered_by_forcing),
    {
        let old_count = self.count;
        let mut wrapped = false;
        if self.counting_enabled {
            // ASSUMPTION: Forced reloads and triggers (auto and forced) are prescaler-delayed, not just actual counter ticks.
            let prescaler_triggered = self.prescaler.tick();
            if !prescaler_triggered {
                // The prescaler didn't trigger yet, so don't tick nor trigger the actual counter.
                return TickResult { skipped: true, wrapped: false, triggered: false };
            }

            let end_count_reached = old_count == self.end_count();
            if forced_reload_pending {
                self.count = self.reload_value();
            } else if !end_count_reached {
                let sum: i32 = old_count as i32 + self.step as i32;
                self.count = if sum < 0 {
                    0
                } else if sum > 0xFFFF {
                    0xFFFF
                } else {
                    sum as u16
                };
            } else if self.wraps {
                self.count = self.reload_value();
                wrapped = true;
            } else {
                // Stay on the end count, leaving the count unchanged.
            }
        }

        let new_count = self.count;
        let target_count = self.target_count();
        // The triggering behavior is fixed when the counter is built, so the same branch is taken every time here.
        let auto_triggered = match self.auto_triggered_by {
            AutoTriggerWhen::Wrapping => wrapped,
            AutoTriggerWhen::EndingOn(_) => new_count == target_count,
            AutoTriggerWhen::StepSizedTransitionTo(_) =>
                target_count as i32 - old_count as i32 == self.step as i32 && new_count == target_count,
        };

        let trigger_if_enabled = auto_triggered || triggered_by_forcing;
        let triggered = trigger_if_enabled && self.triggering_enabled;

        TickResult { skipped: false, wrapped, triggered }
    }

    fn to_irq_counter_info(&self) -> (info: IrqCounterInfo)
        ensures info == self.spec_irq_counter_info(),
    {
        IrqCounterInfo {
            counting_enabled: self.counting_enabled,
            triggering_enabled: self.triggering_enabled,
            count: self.count,
        }
    }
}

/// Collects the settings of a counter, then builds it.
#[derive(Clone, Copy)]
pub struct CounterBuilder {
    pub full_range: Option<Range>,
    pub initial_range: Option<Range>,
    pub initial_count: Option<u16>,
    pub wraps: Option<bool>,

    pub step: Option<i8>,
    pub auto_triggered_by: Option<AutoTriggerWhen>,
    pub trigger_on_forced_reload_with_target_count: bool,
    pub forced_reload_timing: Option<ForcedReloadTiming>,
    pub when_disabled_prevent: Option<WhenDisabledPrevent>,
    pub prescaler: Prescaler,
}

impl CounterBuilder {
    /// Every setting given so far is valid on its own.
    pub open spec fn inv(self) -> bool {
        &&& (self.full_range matches Some(r) ==> r.min <= r.max)
        &&& (self.initial_range matches Some(r) ==> r.min <= r.max)
        &&& (self.step matches Some(s) ==> s != 0)
        &&& self.prescaler.inv()
    }

    /// The range the counter starts with.
    pub open spec fn spec_current_range(self) -> Range {
        match self.initial_range {
            Some(r) => r,
            None => self.full_range.unwrap(),
        }
    }

    /// The count the counter starts with.
    pub open spec fn spec_initial_count(self) -> u16 {
        match self.initial_count {
            Some(c) => c,
            None => self.spec_current_range().min,
        }
    }

    /// The settings are complete and consistent, so that a counter can be built.
    pub open spec fn spec_build_ok(self) -> bool {
        &&& self.when_disabled_prevent is Some
        &&& (self.when_disabled_prevent == Some(WhenDisabledPrevent::Counting) ==> self.prescaler.multiple <= 1)
        &&& self.wraps is Some
        &&& self.auto_triggered_by is Some
        &&& (self.auto_triggered_by == Some(AutoTriggerWhen::Wrapping) ==> self.wraps == Some(true))
        &&& self.full_range is Some
        &&& (self.initial_count is Some || self.spec_current_range().min == self.spec_current_range().max)
        &&& self.spec_current_range().min <= self.spec_initial_count()
        &&& self.spec_initial_count() <= self.spec_current_range().max
        &&& self.step is Some
    }

    /// The counter that these settings build.
    pub open spec fn spec_build(self) -> Counter {
        let when_disabled_prevent = self.when_disabled_prevent.unwrap();
        Counter {
            full_range: self.full_range.unwrap(),
            current_range: self.spec_current_range(),
            wraps: self.wraps.unwrap(),
            step: self.step.unwrap(),
            auto_triggered_by: self.auto_triggered_by.unwrap(),
            when_disabled_prevent: when_disabled_prevent,
            prescaler: self.prescaler,
            triggering_enabled: false,
            // Counters that CANNOT disable counting always count; the others start with counting disabled.
            counting_enabled: when_disabled_prevent == WhenDisabledPrevent::Triggering,
            count: self.spec_initial_count(),
        }
    }

    pub fn new() -> (builder: Self)
        ensures
            builder.inv(),
            builder == (CounterBuilder {
                full_range: None,
                initial_range: None,
                initial_count: None,
                wraps: None,
                step: None,
                auto_triggered_by: None,
                trigger_on_forced_reload_with_target_count: false,
                forced_reload_timing: None,
                when_disabled_prevent: None,
                prescaler: Prescaler {
                    multiple: 1,
                    triggered_by: PrescalerTriggeredBy::AlreadyZero,
                    behavior_on_forced_reload: PrescalerBehaviorOnForcedReload::DoNothing,
                    count: 0,
                    mask: 0xFF,
                    step: 1,
                },
            }),
    {
        Self {
            full_range: None,
            initial_range: None,
            initial_count: None,
            wraps: None,

            step: None,
            auto_triggered_by: None,
            trigger_on_forced_reload_with_target_count: false,
            forced_reload_timing: None,
            when_disabled_prevent: None,
            // A prescaler that doesn't actually delay anything.
            prescaler: Prescaler::nop(),
        }
    }

    pub fn full_range(&mut self, start: u16, end: u16) -> (builder: &mut Self)
        requires old(self).inv(), start <= end,
        ensures
            *builder == (CounterBuilder { full_range: Some(Range { min: start, max: end }), ..*old(self) }),
            builder.inv(),
            *final(self) == *final(builder),
    {
        self.full_range = Some(Range::new(start, end));
        self
    }

    pub fn initial_range(&mut self, start: u16, end: u16) -> (builder: &mut Self)
        requires old(self).inv(), start <= end,
        ensures
            *builder == (CounterBuilder { initial_range: Some(Range { min: start, max: end }), ..*old(self) }),
            builder.inv(),
            *final(self) == *final(builder),
    {
        self.initial_range = Some(Range::new(start, end));
        self
    }

    pub fn initial_count(&mut self, initial_count: u16) -> (builder: &mut Self)
        requires old(self).inv(),
        ensures
            *builder == (CounterBuilder { initial_count: Some(initial_count), ..*old(self) }),
            builder.inv(),
            *final(self) == *final(builder),
    {
        self.initial_count = Some(initial_count);
        self
    }

    pub fn wraps(&mut self, wraps: bool) -> (builder: &mut Self)
        requires old(self).inv(),
        ensures
            *builder == (CounterBuilder { wraps: Some(wraps), ..*old(self) }),
            builder.inv(),
            *final(self) == *final(builder),
    {
        self.wraps = Some(wraps);
        self
    }

    /// Sets the amount the count changes by on each tick; zero is not allowed.
    pub fn step(&mut self, step: i8) -> (builder: &mut Self)
        requires old(self).inv(), step != 0,
        ensures
            *builder == (CounterBuilder { step: Some(step), ..*old(self) }),
            builder.inv(),
            *final(self) == *final(builder),
    {
        self.step = Some(step);
        self
    }

    pub fn auto_trigger_when(&mut self, auto_triggered_when: AutoTriggerWhen) -> (builder: &mut Self)
        requires old(self).inv(),
        ensures
            *builder == (CounterBuilder { auto_triggered_by: Some(auto_triggered_when), ..*old(self) }),
            builder.inv(),
            *final(self) == *final(builder),
    {
        self.auto_triggered_by = Some(auto_triggered_when);
        self
    }

    pub fn also_trigger_on_forced_reload_with_target_count(&mut self) -> (builder: &mut Self)
        requires old(self).inv(),
        ensures
            *builder == (CounterBuilder { trigger_on_forced_reload_with_target_count: true, ..*old(self) }),
            builder.inv(),
            *final(self) == *final(builder),
    {
        self.trigger_on_forced_reload_with_target_count = true;
        self
    }

    pub fn forced_reload_timing(&mut self, forced_reload_timing: ForcedReloadTiming) -> (builder: &mut Self)
        requires old(self).inv(),
        ensures
            *builder == (CounterBuilder { forced_reload_timing: Some(forced_reload_timing), ..*old(self) }),
            builder.inv(),
            *final(self) == *final(builder),
    {
        self.forced_reload_timing = Some(forced_reload_timing);
        self
    }

    pub fn when_disabled_prevent(&mut self, when_disabled_prevent: WhenDisabledPrevent) -> (builder: &mut Self)
        requires old(self).inv(),
        ensures
            *builder == (CounterBuilder { when_disabled_prevent: Some(when_disabled_prevent), ..*old(self) }),
            builder.inv(),
            *final(self) == *final(builder),
    {
        self.when_disabled_prevent = Some(when_disabled_prevent);
        self
    }

    /// Lets only every `multiple`-th tick through to the counter; the multiple must be positive.
    pub fn prescaler(
        &mut self,
        multiple: u8,
        prescaler_triggered_by: PrescalerTriggeredBy,
        prescaler_behavior_on_forced_reload: PrescalerBehaviorOnForcedReload,
    ) -> (builder: &mut Self)
        requires old(self).inv(), multiple != 0,
        ensures
            *builder == (CounterBuilder {
                prescaler: Prescaler {
                    multiple: multiple,
                    triggered_by: prescaler_triggered_by,
                    behavior_on_forced_reload: prescaler_behavior_on_forced_reload,
                    count: 0,
                    step: 1,
                    mask: 0xFF,
                },
                ..*old(self)
            }),
            builder.inv(),
            *final(self) == *final(builder),
    {
        self.prescaler = Prescaler {
            multiple,
            triggered_by: prescaler_triggered_by,
            behavior_on_forced_reload: prescaler_behavior_on_forced_reload,
            count: 0,
            step: 1,
            mask: 0xFF,
        };
        self
    }

    /// Builds a counter whose count is set directly: no forced reloads and no initial range.
    pub fn build_directly_set_counter(self) -> (counter: DirectlySetCounter)
        requires
            self.inv(),
            self.spec_build_ok(),
            self.forced_reload_timing is None,
            !self.trigger_on_forced_reload_with_target_count,
            self.initial_range is None,
        ensures
            counter.wf(),
            counter@ == self.spec_build(),
    {
        DirectlySetCounter(self.build())
    }

    /// Builds a counter whose count is set by reloading; a forced reload timing must be given.
    pub fn build_reload_driven_counter(self) -> (counter: ReloadDrivenCounter)
        requires
            self.inv(),
            self.spec_build_ok(),
            self.forced_reload_timing is Some,
            !self.trigger_on_forced_reload_with_target_count
                || self.auto_triggered_by != Some(AutoTriggerWhen::Wrapping),
        ensures
            counter.wf(),
            counter@ == (ReloadDrivenCounterState {
                counter: self.spec_build(),
                forced_reload_timing: self.forced_reload_timing.unwrap(),
                trigger_on_forced_reload_with_target_count: self.trigger_on_forced_reload_with_target_count,
                forced_reload_pending: false,
            }),
    {
        let counter = self.build();
        let forced_reload_timing = match self.forced_reload_timing {
            Some(timing) => timing,
            None => ForcedReloadTiming::Immediate,
        };
        ReloadDrivenCounter {
            counter,
            trigger_on_forced_reload_with_target_count: self.trigger_on_forced_reload_with_target_count,
            forced_reload_timing,
            forced_reload_pending: false,
        }
    }

    fn build(self) -> (counter: Counter)
        requires self.inv(), self.spec_build_ok(),
        ensures counter.inv(), counter == self.spec_build(),
    {
        let when_disabled_prevent = self.when_disabled_prevent.unwrap();
        let counting_enabled = match when_disabled_prevent {
            // Counters that CANNOT disable counting will always have counting enabled.
            WhenDisabledPrevent::Triggering => true,
            // Counters that CAN disable counting should START with counting disabled.
            WhenDisabledPrevent::Counting | WhenDisabledPrevent::CountingAndTriggering => false,
        };

        let safe_for_prescaler = !matches!(when_disabled_prevent, WhenDisabledPrevent::Counting);
        let prescaler_enabled = self.prescaler.enabled();
        assert(safe_for_prescaler || !prescaler_enabled);

        let wraps = self.wraps.unwrap();
        let auto_triggered_by = self.auto_triggered_by.unwrap();
        let max_range = self.full_range.unwrap();
        let current_range = match self.initial_range {
            Some(range) => range,
            None => max_range,
        };
        let count = match self.initial_count {
            Some(count) => count,
            // There is only one value the initial count could be, so the caller needn't specify it.
            None => current_range.min,
        };
        let count_in_range = current_range.contains(count);
        assert(count_in_range);

        Counter {
            full_range: max_range,
            current_range,
            wraps,
            step: self.step.unwrap(),
            auto_triggered_by,
            when_disabled_prevent,
            prescaler: self.prescaler,
            triggering_enabled: false,
            counting_enabled,
            count,
        }
    }
}

/// When a counter triggers on its own.
#[derive(PartialEq, Eq, Clone, Copy, Debug, Structural)]
pub enum AutoTriggerWhen {
    Wrapping,
    EndingOn(u16),
    StepSizedTransitionTo(u16),
}

/// When a forced reload changes the count.
#[derive(PartialEq, Eq, Clone, Copy, Debug, Structural)]
pub enum ForcedReloadTiming {
    Immediate,
    OnNextTick,
}

/// Divides the ticks that reach a counter: only every `multiple`-th tick gets through.
#[derive(Clone, Copy, Debug)]
pub struct Prescaler {
    // Settings fixed when the counter is built.
    pub multiple: u8,
    pub triggered_by: PrescalerTriggeredBy,
    pub behavior_on_forced_reload: PrescalerBehaviorOnForcedReload,

    // State
    pub count: u8,
    pub mask: u8,
    pub step: i8,
}

impl Prescaler {
    /// The multiple and the step are nonzero.
    pub open spec fn inv(self) -> bool {
        self.multiple != 0 && self.step != 0
    }

    /// The prescaler after one tick: the count moves by the step, wrapping at 256, then is
    /// reduced modulo the multiple.
    pub open spec fn spec_ticked(self) -> Prescaler {
        Prescaler { count: (((self.count + self.step) % 256) % (self.multiple as int)) as u8, ..self }
    }

    /// Whether this tick is let through to the counter.
    pub open spec fn spec_triggers(self) -> bool {
        match self.triggered_by {
            PrescalerTriggeredBy::AlreadyZero => self.count & self.mask == 0,
            PrescalerTriggeredBy::WrappingToZero => self.spec_ticked().count & self.mask == 0,
        }
    }

    /// A multiple of 1 means the prescaler has no effect, regardless of which triggered_by behavior is used.
    fn nop() -> (p: Prescaler)
        ensures
            p.inv(),
            p == (Prescaler {
                multiple: 1,
                triggered_by: PrescalerTriggeredBy::AlreadyZero,
                behavior_on_forced_reload: PrescalerBehaviorOnForcedReload::DoNothing,
                count: 0,
                mask: 0xFF,
                step: 1,
            }),
    {
        Prescaler {
            multiple: 1,
            triggered_by: PrescalerTriggeredBy::AlreadyZero,
            behavior_on_forced_reload: PrescalerBehaviorOnForcedReload::DoNothing,
            count: 0,
            mask: 0xFF,
            step: 1,
        }
    }

    fn tick(&mut self) -> (triggered: bool)
        requires old(self).inv(),
        ensures final(self).inv(), *final(self) == old(self).spec_ticked(), triggered == old(self).spec_triggers(),
    {
        let old_count = self.count;
        let stepped = self.count.wrapping_add_signed(self.step);
        assert(stepped == (old_count + self.step) % 256);
        self.count = stepped % self.multiple;
        let new_count = self.count;

        match self.triggered_by {
            PrescalerTriggeredBy::AlreadyZero => old_count & self.mask == 0,
            PrescalerTriggeredBy::WrappingToZero => new_count & self.mask == 0,
        }
    }

    fn enabled(self) -> (enabled: bool)
        ensures enabled == (self.multiple > 1),
    {
        self.multiple > 1
    }
}

#[derive(Clone, Copy, Debug, PartialEq, Eq, Structural)]
pub enum PrescalerTriggeredBy {
    AlreadyZero,
    WrappingToZero,
}

#[derive(PartialEq, Eq, Clone, Copy, Debug, Structural)]
pub enum PrescalerBehaviorOnForcedReload {
    DoNothing,
    ClearCount,
}

/// What happened during one tick of a counter.
#[derive(PartialEq, Eq, Clone, Copy, Debug, Structural)]
pub struct TickResult {
    pub skipped: bool,
    pub wrapped: bool,
    pub triggered: bool,
}

/// An inclusive range of counts.
#[derive(Clone, Copy, Debug, PartialEq, Eq, Structural)]
pub struct Range {
    pub min: u16,
    pub max: u16,
}

impl Range {
    fn new(start: u16, end: u16) -> (range: Range)
        requires start <= end,
        ensures range == (Range { min: start, max: end }),
    {
        Range { min: start, max: end }
    }

    fn is_subrange_of(self, other: Range) -> (b: bool)
        ensures b == (self.min >= other.min && self.max <= other.max),
    {
        self.min >= other.min && self.max <= other.max
    }

    fn contains(self, value: u16) -> (b: bool)
        ensures b == (self.min <= value && value <= self.max),
    {
        self.min <= value && value <= self.max
    }
}


/// A forced reload with immediate timing puts the counter at its reload value at once, with
/// nothing left pending.
pub proof fn lemma_immediate_forced_reload(state: ReloadDrivenCounterState)
    requires
        state.forced_reload_timing == ForcedReloadTiming::Immediate,
    ensures
        state.spec_force_reload().counter.count == state.counter.spec_reload_value(),
        state.spec_force_reload().forced_reload_pending == state.forced_reload_pending,
        state.spec_force_reload().counter.current_range == state.counter.current_range,
{
}

/// A forced reload with next-tick timing leaves the count alone until the next tick that gets
/// through the prescaler, which puts the counter at its reload value and clears the pending reload.
pub proof fn lemma_deferred_forced_reload(state: ReloadDrivenCounterState)
    requires
        state.forced_reload_timing == ForcedReloadTiming::OnNextTick,
        state.counter.counting_enabled,
    ensures
        state.spec_force_reload().counter.count == state.counter.count,
        state.spec_force_reload().forced_reload_pending,
        ({
            let pending = state.spec_force_reload();
            let (next, result) = pending.spec_tick();
            !result.skipped ==> next.counter.count == state.counter.spec_reload_value() && !next.forced_reload_pending
        }),
{
}

/// While counting is disabled, a tick never changes the count and never wraps.
pub proof fn lemma_counting_disabled_keeps_count(counter: Counter, forced_reload_pending: bool, triggered_by_forcing: bool)
    requires
        !counter.counting_enabled,
    ensures
        counter.spec_tick(forced_reload_pending, triggered_by_forcing).0.count == counter.count,
        !counter.spec_tick(forced_reload_pending, triggered_by_forcing).1.wrapped,
        !counter.spec_tick(forced_reload_pending, triggered_by_forcing).1.skipped,
{
}

/// While triggering is disabled, a tick never triggers.
pub proof fn lemma_triggering_disabled_never_triggers(counter: Counter, forced_reload_pending: bool, triggered_by_forcing: bool)
    requires
        !counter.triggering_enabled,
    ensures
        !counter.spec_tick(forced_reload_pending, triggered_by_forcing).1.triggered,
{
}

/// A wrapping counter at its end count goes back to its reload value on the next tick that gets
/// through the prescaler, and reports the wrap.
pub proof fn lemma_wraps_at_end(counter: Counter)
    requires
        counter.counting_enabled,
        counter.wraps,
        counter.count == counter.spec_end_count(),
        counter.prescaler.spec_triggers(),
    ensures
        counter.spec_tick(false, false).0.count == counter.spec_reload_value(),
        counter.spec_tick(false, false).1.wrapped,
{
}

/// A counter that does not wrap stays at its end count.
pub proof fn lemma_stays_at_end(counter: Counter)
    requires
        !counter.wraps,
        counter.count == counter.spec_end_count(),
    ensures
        counter.spec_tick(false, false).0.count == counter.count,
        !counter.spec_tick(false, false).1.wrapped,
{
}

/// Disabling a counter and enabling it again restores both counting and triggering.
pub proof fn lemma_enable_after_disable(counter: Counter)
    ensures
        counter.spec_disabled().spec_enabled().counting_enabled,
        counter.spec_disabled().spec_enabled().triggering_enabled,
        counter.spec_disabled().spec_enabled().count == counter.count,
{
}

} // verus!
