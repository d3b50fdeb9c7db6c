use vstd::prelude::*;

use crate::counter::counter::{lemma_with_high_byte, lemma_with_low_byte, with_high_byte, with_low_byte};
use crate::counter::irq_counter_info::IrqCounterInfo;
pub use crate::counter::when_disabled_prevent::WhenDisabledPrevent;

verus! {

/// A counter that counts down towards zero, reloading from a reload value.
pub struct DecrementingCounter {
    // Settings fixed when the counter is built.
    auto_triggered_by: AutoTriggeredBy,
    trigger_on_forced_reload_of_zero: bool,
    forced_reload_timing: ForcedReloadTiming,
    auto_reload: bool,
    when_disabled_prevent: WhenDisabledPrevent,
    decrement_size: u16,

    // State
    triggering_enabled: bool,
    ticking_enabled: bool,
    reload_value: u16,
    count: u16,
    forced_reload_pending: bool,
    forced_trigger_pending: bool,
    prescaler: Prescaler,
}

/// The settings and state of a `DecrementingCounter`.
pub struct DecrementingCounterState {
    pub auto_triggered_by: AutoTriggeredBy,
    pub trigger_on_forced_reload_of_zero: bool,
    pub forced_reload_timing: ForcedReloadTiming,
    pub auto_reload: bool,
    pub when_disabled_prevent: WhenDisabledPrevent,
    pub decrement_size: u16,

    pub triggering_enabled: bool,
    pub ticking_enabled: bool,
    pub reload_value: u16,
    pub count: u16,
    pub forced_reload_pending: bool,
    pub forced_trigger_pending: bool,
    pub prescaler: Prescaler,
}

impl View for DecrementingCounter {
    type V = DecrementingCounterState;

    closed spec fn view(&self) -> DecrementingCounterState {
        DecrementingCounterState {
            auto_triggered_by: self.auto_triggered_by,
            trigger_on_forced_reload_of_zero: self.trigger_on_forced_reload_of_zero,
            forced_reload_timing: self.forced_reload_timing,
            auto_reload: self.auto_reload,
            when_disabled_prevent: self.when_disabled_prevent,
            decrement_size: self.decrement_size,
            triggering_enabled: self.triggering_enabled,
            ticking_enabled: self.ticking_enabled,
            reload_value: self.reload_value,
            count: self.count,
            forced_reload_pending: self.forced_reload_pending,
            forced_trigger_pending: self.forced_trigger_pending,
            prescaler: self.prescaler,
        }
    }
}

impl DecrementingCounterState {
    /// The decrement size is positive and the prescaler is valid.
    pub open spec fn inv(self) -> bool {
        self.decrement_size != 0 && self.prescaler.inv()
    }

    pub open spec fn spec_enabled(self) -> DecrementingCounterState {
        DecrementingCounterState { triggering_enabled: true, ticking_enabled: true, ..self }
    }

    pub open spec fn spec_disabled(self) -> DecrementingCounterState {
        match self.when_disabled_prevent {
            WhenDisabledPrevent::Counting => DecrementingCounterState { ticking_enabled: false, ..self },
            WhenDisabledPrevent::Triggering => DecrementingCounterState { triggering_enabled: false, ..self },
            WhenDisabledPrevent::CountingAndTriggering =>
                DecrementingCounterState { ticking_enabled: false, triggering_enabled: false, ..self },
        }
    }

    /// The state after a forced reload.
    pub open spec fn spec_force_reload(self) -> DecrementingCounterState {
        let prescaler = if self.prescaler.behavior_on_forced_reload == PrescalerBehaviorOnForcedReload::ClearCount {
            Prescaler { count: 0, ..self.prescaler }
        } else {
            self.prescaler
        };
        match self.forced_reload_timing {
            ForcedReloadTiming::Immediate => DecrementingCounterState {
                prescaler: prescaler,
                count: self.reload_value,
                forced_trigger_pending: if self.trigger_on_forced_reload_of_zero && self.reload_value == 0 {
                    true
                } else {
                    self.forced_trigger_pending
                },
                ..self
            },
            ForcedReloadTiming::OnNextTick => DecrementingCounterState {
                prescaler: prescaler,
                forced_reload_pending: true,
                ..self
            },
        }
    }

    /// The count after the counter actually ticks.
    pub open spec fn spec_ticked_count(self) -> u16 {
        if (self.count == 0 && self.auto_reload) || self.forced_reload_pending {
            self.reload_value
        } else if self.count >= self.decrement_size {
            (self.count - self.decrement_size) as u16
        } else {
            0
        }
    }

    /// The state after one tick, and whether the tick triggered.
    pub open spec fn spec_tick(self) -> (DecrementingCounterState, bool) {
        if self.ticking_enabled && !self.prescaler.spec_triggers() {
            (DecrementingCounterState { prescaler: self.prescaler.spec_ticked(), ..self }, false)
        } else {
            let old_count = self.count;
            let new_count = if self.ticking_enabled { self.spec_ticked_count() } else { self.count };
            let auto_triggered = match self.auto_triggered_by {
                AutoTriggeredBy::AlreadyZero => old_count == 0,
                AutoTriggeredBy::EndingOnZero => new_count == 0,
                AutoTriggeredBy::OneToZeroTransition => old_count == 1 && new_count == 0,
            };
            let triggered_by_forcing = (self.trigger_on_forced_reload_of_zero && self.forced_reload_pending
                && self.reload_value == 0) || self.forced_trigger_pending;
            (
                DecrementingCounterState {
                    count: new_count,
                    prescaler: if self.ticking_enabled { self.prescaler.spec_ticked() } else { self.prescaler },
                    forced_reload_pending: false,
                    forced_trigger_pending: false,
                    ..self
                },
                (auto_triggered || triggered_by_forcing) && self.triggering_enabled,
            )
        }
    }

    pub open spec fn spec_irq_counter_info(self) -> IrqCounterInfo {
        IrqCounterInfo {
            counting_enabled: self.ticking_enabled,
            triggering_enabled: self.triggering_enabled,
            count: self.count,
        }
    }
}

impl DecrementingCounter {
    /// The counter's settings are consistent.
    pub open spec fn wf(&self) -> bool {
        self@.inv()
    }

    pub fn enable(&mut self)
        requires old(self).wf(),
        ensures final(self).wf(), final(self)@ == old(self)@.spec_enabled(),
    {
        self.triggering_enabled = true;
        self.ticking_enabled = true;
    }

    pub fn disable(&mut self)
        requires old(self).wf(),
        ensures final(self).wf(), final(self)@ == old(self)@.spec_disabled(),
    {
        match self.when_disabled_prevent {
            WhenDisabledPrevent::Counting => self.ticking_enabled = false,
            WhenDisabledPrevent::Triggering => self.triggering_enabled = false,
            WhenDisabledPrevent::CountingAndTriggering => {
                self.ticking_enabled = false;
                self.triggering_enabled = false;
            }
        }
    }

    pub fn set_reload_value(&mut self, value: u8)
        requires old(self).wf(),
        ensures
            final(self).wf(),
            final(self)@ == (DecrementingCounterState { reload_value: value as u16, ..old(self)@ }),
    {
        self.reload_value = value as u16;
    }

    pub fn set_reload_value_low_byte(&mut self, value: u8)
        requires old(self).wf(),
        ensures
            final(self).wf(),
            final(self)@ == (DecrementingCounterState {
                reload_value: with_low_byte(old(self)@.reload_value, value),
                ..old(self)@
            }),
    {
        proof { lemma_with_low_byte(self.reload_value, value); }
        self.reload_value = (self.reload_value & 0xFF00) | (value as u16);
    }

    pub fn set_reload_value_high_byte(&mut self, value: u8)
        requires old(self).wf(),
        ensures
            final(self).wf(),
            final(self)@ == (DecrementingCounterState {
                reload_value: with_high_byte(old(self)@.reload_value, value),
                ..old(self)@
            }),
    {
        proof { lemma_with_high_byte(self.reload_value, value); }
        self.reload_value = (self.reload_value & 0x00FF) | ((value as u16) << 8);
    }

    pub fn force_reload(&mut self)
        requires old(self).wf(),
        ensures final(self).wf(), final(self)@ == old(self)@.spec_force_reload(),
    {
        if self.prescaler.behavior_on_forced_reload == PrescalerBehaviorOnForcedReload::ClearCount {
            self.prescaler.count = 0;
        }

        match self.forced_reload_timing {
            ForcedReloadTiming::Immediate => {
                self.count = self.reload_value;
                // Untested behavior, not sure if it exists in the wild. Should forced_trigger_pending be set if !triggering_enabled?
                if self.trigger_on_forced_reload_of_zero && self.reload_value == 0 {
                    self.forced_trigger_pending = true;
                }
            }
            ForcedReloadTiming::OnNextTick => self.forced_reload_pending = true,
        }
    }

    pub fn tick(&mut self) -> (triggered: bool)
        requires old(self).wf(),
        ensures final(self).wf(), (final(self)@, triggered) == old(self)@.spec_tick(),
    {
        let old_count = self.count;
        if self.ticking_enabled {
            // ASSUMPTION: Forced reloads and triggers (auto and forced) are prescaler-delayed, not just actual counter ticks.
            let prescaler_triggered = self.prescaler.tick();
            if !prescaler_triggered {
                // The prescaler didn't trigger yet, so don't tick nor trigger the actual counter.
                return false;
            }

            let zero_counter_reload = old_count == 0 && self.auto_reload;
            let should_reload = zero_counter_reload || self.forced_reload_pending;
            self.count = if should_reload {
                self.reload_value
            } else {
                self.count.saturating_sub(self.decrement_size)
            };
        }

        let new_count = self.count;
        // The triggering behavior is fixed when the counter is built, so the same branch is taken every time here.
        let auto_triggered = match self.auto_triggered_by {
            AutoTriggeredBy::AlreadyZero => old_count == 0,
            AutoTriggeredBy::EndingOnZero => new_count == 0,
            AutoTriggeredBy::OneToZeroTransition => old_count == 1 && new_count == 0,
        };
        let mut triggered_by_forcing = self.trigger_on_forced_reload_of_zero && self.forced_reload_pending && self.reload_value == 0;
        triggered_by_forcing = triggered_by_forcing || self.forced_trigger_pending;

        let trigger_if_enabled = auto_triggered || triggered_by_forcing;
        let triggered = trigger_if_enabled && self.triggering_enabled;

        self.forced_reload_pending = false;
        self.forced_trigger_pending = false;
        triggered
    }

    pub fn to_irq_counter_info(&self) -> (info: IrqCounterInfo)
        ensures info == self@.spec_irq_counter_info(),
    {
        IrqCounterInfo {
            counting_enabled: self.ticking_enabled,
            triggering_enabled: self.triggering_enabled,
            count: self.count,
        }
    }
}

/// A decrementing counter where the count can be set directly, and can't be force-reloaded.
pub struct DirectlySetDecrementingCounter(DecrementingCounter);

impl View for DirectlySetDecrementingCounter {
    type V = DecrementingCounterState;

    closed spec fn view(&self) -> DecrementingCounterState {
        self.0@
    }
}

impl DirectlySetDecrementingCounter {
    /// The counter's settings are consistent.
    pub open spec fn wf(&self) -> bool {
        self@.inv()
    }

    // Used instead of set_reload_value_low_byte().
    pub fn set_count_low_byte(&mut self, value: u8)
        requires old(self).wf(),
        ensures
            final(self).wf(),
            final(self)@ == (DecrementingCounterState { count: with_low_byte(old(self)@.count, value), ..old(self)@ }),
    {
        proof { lemma_with_low_byte(self.0.count, value); }
        self.0.count = (self.0.count & 0xFF00) | (value as u16);
    }

    // Used instead of set_reload_value_high_byte().
    pub fn set_count_high_byte(&mut self, value: u8)
        requires old(self).wf(),
        ensures
            final(self).wf(),
            final(self)@ == (DecrementingCounterState { count: with_high_byte(old(self)@.count, value), ..old(self)@ }),
    {
        proof { lemma_with_high_byte(self.0.count, value); }
        self.0.count = (self.0.count & 0x00FF) | ((value as u16) << 8);
    }

    // force_reload() intentionally omitted from this list.
    pub fn enable(&mut self)
        requires old(self).wf(),
        ensures final(self).wf(), final(self)@ == old(self)@.spec_enabled(),
    {
        self.0.enable();
    }

    pub fn disable(&mut self)
        requires old(self).wf(),
        ensures final(self).wf(), final(self)@ == old(self)@.spec_disabled(),
    {
        self.0.disable();
    }

    pub fn tick(&mut self) -> (triggered: bool)
        requires old(self).wf(),
        ensures final(self).wf(), (final(self)@, triggered) == old(self)@.spec_tick(),
    {
        self.0.tick()
    }

    pub fn to_irq_counter_info(&self) -> (info: IrqCounterInfo)
        ensures info == self@.spec_irq_counter_info(),
    {
        self.0.to_irq_counter_info()
    }

    // The vast majority of use-cases should just call enable/disable instead of this.
    pub fn set_triggering_enabled(&mut self, triggering_enabled: bool)
        requires old(self).wf(),
        ensures
            final(self).wf(),
            final(self)@ == (DecrementingCounterState { triggering_enabled: triggering_enabled, ..old(self)@ }),
    {
        self.0.triggering_enabled = triggering_enabled;
    }

    // The vast majority of use-cases should just call enable/disable instead of this.
    pub fn set_ticking_enabled(&mut self, ticking_enabled: bool)
        requires old(self).wf(),
        ensures
            final(self).wf(),
            final(self)@ == (DecrementingCounterState { ticking_enabled: ticking_enabled, ..old(self)@ }),
    {
        self.0.ticking_enabled = ticking_enabled;
    }
}

/// Collects the settings of a decrementing counter, then builds it.
#[derive(Clone, Copy)]
pub struct DecrementingCounterBuilder {
    pub auto_triggered_by: Option<AutoTriggeredBy>,
    pub trigger_on_forced_reload_of_zero: bool,
    pub auto_reload: Option<bool>,
    pub forced_reload_timing: Option<ForcedReloadTiming>,
    pub when_disabled_prevent: Option<WhenDisabledPrevent>,
    pub initial_reload_value: u16,
    pub initial_count: Option<u16>,
    pub decrement_size: u16,
    pub prescaler: Prescaler,
}

impl DecrementingCounterBuilder {
    /// Every setting given so far is valid on its own.
    pub open spec fn inv(self) -> bool {
        self.decrement_size != 0 && self.prescaler.inv()
    }

    /// The settings are complete and consistent, apart from the forced reload timing.
    pub open spec fn spec_build_ok(self) -> bool {
        &&& self.auto_triggered_by is Some
        &&& !(self.auto_triggered_by == Some(AutoTriggeredBy::OneToZeroTransition) && self.decrement_size > 1)
        &&& self.when_disabled_prevent is Some
        &&& !(self.when_disabled_prevent == Some(WhenDisabledPrevent::Counting) && self.prescaler.multiple != 1)
        &&& self.auto_reload is Some
    }

    /// The counter that these settings build, with the given forced reload timing.
    pub open spec fn spec_build(self, forced_reload_timing: ForcedReloadTiming) -> DecrementingCounterState {
        let when_disabled_prevent = self.when_disabled_prevent.unwrap();
        DecrementingCounterState {
            auto_triggered_by: self.auto_triggered_by.unwrap(),
            trigger_on_forced_reload_of_zero: self.trigger_on_forced_reload_of_zero,
            forced_reload_timing: forced_reload_timing,
            auto_reload: self.auto_reload.unwrap(),
            when_disabled_prevent: when_disabled_prevent,
            decrement_size: self.decrement_size,
            prescaler: self.prescaler,
            triggering_enabled: false,
            // Counters that CANNOT disable ticking always tick; the others start with ticking disabled.
            ticking_enabled: when_disabled_prevent == WhenDisabledPrevent::Triggering,
            reload_value: self.initial_reload_value,
            count: match self.initial_count {
                Some(count) => count,
                None => self.initial_reload_value,
            },
            forced_reload_pending: false,
            forced_trigger_pending: false,
        }
    }

    pub fn new() -> (builder: Self)
        ensures
            builder.inv(),
            builder == (DecrementingCounterBuilder {
                auto_triggered_by: None,
                trigger_on_forced_reload_of_zero: false,
                auto_reload: None,
                forced_reload_timing: None,
                when_disabled_prevent: None,
                initial_reload_value: 0,
                initial_count: None,
                decrement_size: 1,
                prescaler: Prescaler {
                    multiple: 1,
                    triggered_by: PrescalerTriggeredBy::AlreadyZero,
                    behavior_on_forced_reload: PrescalerBehaviorOnForcedReload::DoNothing,
                    count: 0,
                },
            }),
    {
        Self {
            auto_triggered_by: None,
            trigger_on_forced_reload_of_zero: false,
            auto_reload: None,
            forced_reload_timing: None,
            when_disabled_prevent: None,
            initial_reload_value: 0,
            // Normally initial_reload_value is assigned to initial_count in build().
            initial_count: None,
            decrement_size: 1,
            // A prescaler that doesn't actually delay anything.
            prescaler: Prescaler {
                multiple: 1,
                triggered_by: PrescalerTriggeredBy::AlreadyZero,
                behavior_on_forced_reload: PrescalerBehaviorOnForcedReload::DoNothing,
                count: 0,
            },
        }
    }

    pub fn auto_triggered_by(&mut self, auto_triggered_by: AutoTriggeredBy) -> (builder: &mut Self)
        requires old(self).inv(),
        ensures
            *builder == (DecrementingCounterBuilder { auto_triggered_by: Some(auto_triggered_by), ..*old(self) }),
            builder.inv(),
            *final(self) == *final(builder),
    {
        self.auto_triggered_by = Some(auto_triggered_by);
        self
    }

    pub fn also_trigger_on_forced_reload_of_zero(&mut self) -> (builder: &mut Self)
        requires old(self).inv(),
        ensures
            *builder == (DecrementingCounterBuilder { trigger_on_forced_reload_of_zero: true, ..*old(self) }),
            builder.inv(),
            *final(self) == *final(builder),
    {
        self.trigger_on_forced_reload_of_zero = true;
        self
    }

    pub fn on_forced_reload_set_count(&mut self, forced_reload_behavior: ForcedReloadTiming) -> (builder: &mut Self)
        requires old(self).inv(),
        ensures
            *builder == (DecrementingCounterBuilder { forced_reload_timing: Some(forced_reload_behavior), ..*old(self) }),
            builder.inv(),
            *final(self) == *final(builder),
    {
        self.forced_reload_timing = Some(forced_reload_behavior);
        self
    }

    pub fn auto_reload(&mut self, auto_reload: bool) -> (builder: &mut Self)
        requires old(self).inv(),
        ensures
            *builder == (DecrementingCounterBuilder { auto_reload: Some(auto_reload), ..*old(self) }),
            builder.inv(),
            *final(self) == *final(builder),
    {
        self.auto_reload = Some(auto_reload);
        self
    }

    pub fn when_disabled_prevent(&mut self, when_disabled_prevent: WhenDisabledPrevent) -> (builder: &mut Self)
        requires old(self).inv(),
        ensures
            *builder == (DecrementingCounterBuilder { when_disabled_prevent: Some(when_disabled_prevent), ..*old(self) }),
            builder.inv(),
            *final(self) == *final(builder),
    {
        self.when_disabled_prevent = Some(when_disabled_prevent);
        self
    }

    pub fn initial_reload_value(&mut self, value: u16) -> (builder: &mut Self)
        requires old(self).inv(),
        ensures
            *builder == (DecrementingCounterBuilder { initial_reload_value: value, ..*old(self) }),
            builder.inv(),
            *final(self) == *final(builder),
    {
        self.initial_reload_value = value;
        self
    }

    pub fn initial_count(&mut self, value: u16) -> (builder: &mut Self)
        requires old(self).inv(),
        ensures
            *builder == (DecrementingCounterBuilder { initial_count: Some(value), ..*old(self) }),
            builder.inv(),
            *final(self) == *final(builder),
    {
        self.initial_count = Some(value);
        self
    }

    /// Sets how much each tick subtracts; it must be positive.
    pub fn decrement_size(&mut self, size: u16) -> (builder: &mut Self)
        requires old(self).inv(), size != 0,
        ensures
            *builder == (DecrementingCounterBuilder { decrement_size: size, ..*old(self) }),
            builder.inv(),
            *final(self) == *final(builder),
    {
        self.decrement_size = size;
        self
    }

    /// Lets only every `multiple`-th tick through to the counter; the multiple must be positive.
    pub fn prescaler(
        &mut self,
        multiple: u8,
        prescaler_triggered_by: PrescalerTriggeredBy,
        prescaler_behavior_on_forced_reload: PrescalerBehaviorOnForcedReload,
    ) -> (builder: &mut Self)
        requires old(self).inv(), multiple != 0,
        ensures
            *builder == (DecrementingCounterBuilder {
                prescaler: Prescaler {
                    multiple: multiple,
                    triggered_by: prescaler_triggered_by,
                    behavior_on_forced_reload: prescaler_behavior_on_forced_reload,
                    count: 0,
                },
                ..*old(self)
            }),
            builder.inv(),
            *final(self) == *final(builder),
    {
        self.prescaler = Prescaler {
            multiple,
            triggered_by: prescaler_triggered_by,
            behavior_on_forced_reload: prescaler_behavior_on_forced_reload,
            count: 0,
        };
        self
    }

    /// Builds a counter that can be force-reloaded; the forced reload timing must be set.
    pub fn build(self) -> (counter: DecrementingCounter)
        requires self.inv(), self.spec_build_ok(), self.forced_reload_timing is Some,
        ensures counter.wf(), counter@ == self.spec_build(self.forced_reload_timing.unwrap()),
    {
        self.build_reload_forceable()
    }

    /// Builds a counter whose count is set directly.
    pub fn build_directly_set(self) -> (counter: DirectlySetDecrementingCounter)
        requires self.inv(), self.spec_build_ok(),
        ensures counter.wf(), counter@ == self.spec_build(ForcedReloadTiming::Immediate),
    {
        let mut builder = self;
        // Set an unused dummy value so validation will pass.
        builder.forced_reload_timing = Some(ForcedReloadTiming::Immediate);
        DirectlySetDecrementingCounter(builder.build_reload_forceable())
    }

    fn build_reload_forceable(self) -> (counter: DecrementingCounter)
        requires self.inv(), self.spec_build_ok(), self.forced_reload_timing is Some,
        ensures counter.wf(), counter@ == self.spec_build(self.forced_reload_timing.unwrap()),
    {
        let auto_triggered_by = self.auto_triggered_by.unwrap();
        let reload_value = self.initial_reload_value;
        let when_disabled_prevent = self.when_disabled_prevent.unwrap();
        let ticking_enabled = match when_disabled_prevent {
            // Counters that CANNOT disable ticking will always have ticking enabled.
            WhenDisabledPrevent::Triggering => true,
            // Counters that CAN disable ticking should START with ticking disabled.
            WhenDisabledPrevent::Counting | WhenDisabledPrevent::CountingAndTriggering => false,
        };

        // Only counters that can't disable ticking on their own may have a prescaler.
        let prescaler_is_nop = self.prescaler.is_nop();
        assert(!matches!(when_disabled_prevent, WhenDisabledPrevent::Counting) || prescaler_is_nop);

        DecrementingCounter {
            auto_triggered_by,
            trigger_on_forced_reload_of_zero: self.trigger_on_forced_reload_of_zero,
            forced_reload_timing: self.forced_reload_timing.unwrap(),
            auto_reload: self.auto_reload.unwrap(),
            when_disabled_prevent,
            decrement_size: self.decrement_size,
            prescaler: self.prescaler,
            triggering_enabled: false,
            ticking_enabled,
            reload_value,
            count: match self.initial_count {
                Some(count) => count,
                None => reload_value,
            },
            forced_reload_pending: false,
            forced_trigger_pending: false,
        }
    }
}

/// When a decrementing counter triggers on its own.
#[derive(PartialEq, Eq, Clone, Copy, Debug, Structural)]
pub enum AutoTriggeredBy {
    AlreadyZero,
    EndingOnZero,
    OneToZeroTransition,
}

/// When a forced reload changes the count.
#[derive(PartialEq, Eq, Clone, Copy, Debug, Structural)]
pub enum ForcedReloadTiming {
    Immediate,
    OnNextTick,
}

/// Divides the ticks that reach a decrementing counter: only every `multiple`-th tick gets through.
#[derive(Clone, Copy, Debug)]
pub struct Prescaler {
    // Settings fixed when the counter is built.
    pub multiple: u8,
    pub triggered_by: PrescalerTriggeredBy,
    pub behavior_on_forced_reload: PrescalerBehaviorOnForcedReload,

    // State
    pub count: u8,
}

impl Prescaler {
    /// The multiple is positive and the count stays below it.
    pub open spec fn inv(self) -> bool {
        self.multiple != 0 && self.count < self.multiple
    }

    pub open spec fn spec_ticked(self) -> Prescaler {
        Prescaler { count: ((self.count + 1) % (self.multiple as int)) as u8, ..self }
    }

    pub open spec fn spec_triggers(self) -> bool {
        match self.triggered_by {
            PrescalerTriggeredBy::AlreadyZero => self.count == 0,
            PrescalerTriggeredBy::WrappingToZero => self.spec_ticked().count == 0,
        }
    }

    fn tick(&mut self) -> (triggered: bool)
        requires old(self).inv(),
        ensures final(self).inv(), *final(self) == old(self).spec_ticked(), triggered == old(self).spec_triggers(),
    {
        let old_count = self.count;
        self.count = (self.count + 1) % self.multiple;
        let new_count = self.count;

        let triggered = match self.triggered_by {
            PrescalerTriggeredBy::AlreadyZero => old_count == 0,
            PrescalerTriggeredBy::WrappingToZero => new_count == 0,
        };

        triggered
    }

    fn is_nop(&self) -> (nop: bool)
        ensures nop == (self.multiple == 1),
    {
        self.multiple == 1
    }
}

#[derive(Clone, Copy, Debug, PartialEq, Eq, Structural)]
pub enum PrescalerTriggeredBy {
    AlreadyZero,
    WrappingToZero,
}

#[derive(PartialEq, Eq, Clone, Copy, Debug, Structural)]
pub enum PrescalerBehaviorOnForcedReload {
    DoNothing,
    ClearCount,
}

/// Law of the decrementing counter's tick. A tick held back by the prescaler changes neither the
/// count nor triggers. Otherwise a ticking counter reloads when it was at zero with auto reload,
/// or when a forced reload is pending, and else goes down by the decrement size, stopping at zero;
/// a counter that doesn't tick keeps its count. Without forcing, it triggers only while triggering
/// is enabled: with `AlreadyZero` when the count before the tick was 0, with `EndingOnZero` when
/// the count after it is 0, and with `OneToZeroTransition` when it went from 1 to 0. A pending
/// forced trigger triggers while triggering is enabled.
#[verifier::spinoff_prover]
pub proof fn lemma_decrementing_tick(state: DecrementingCounterState)
    ensures
        ({
            let (after, triggered) = state.spec_tick();
            let held = state.ticking_enabled && !state.prescaler.spec_triggers();
            let forced = state.forced_trigger_pending
                || (state.trigger_on_forced_reload_of_zero && state.forced_reload_pending && state.reload_value == 0);
            &&& held ==> !triggered && after.count == state.count
            &&& !held && state.ticking_enabled ==> after.count == if (state.count == 0 && state.auto_reload)
                || state.forced_reload_pending {
                state.reload_value as int
            } else if state.count >= state.decrement_size {
                state.count - state.decrement_size
            } else {
                0
            }
            &&& !state.ticking_enabled ==> after.count == state.count
            &&& !held && !forced && state.auto_triggered_by == AutoTriggeredBy::AlreadyZero
                ==> triggered == (state.triggering_enabled && state.count == 0)
            &&& !held && !forced && state.auto_triggered_by == AutoTriggeredBy::EndingOnZero
                ==> triggered == (state.triggering_enabled && after.count == 0)
            &&& !held && !forced && state.auto_triggered_by == AutoTriggeredBy::OneToZeroTransition
                ==> triggered == (state.triggering_enabled && state.count == 1 && after.count == 0)
            &&& !held && forced ==> triggered == state.triggering_enabled
            &&& !state.triggering_enabled ==> !triggered
            &&& !held ==> !after.forced_reload_pending && !after.forced_trigger_pending
        }),
{
}

/// Law of `AlreadyZero` against `EndingOnZero`: a counter of count 1 that steps down to 0 without
/// forcing triggers at once when it ends on zero, and not at once when it triggers on an
/// already-zero count.
#[verifier::spinoff_prover]
pub proof fn lemma_already_zero_waits_a_tick(state: DecrementingCounterState)
    requires
        state.count == 1,
        state.decrement_size == 1,
        state.ticking_enabled,
        state.triggering_enabled,
        state.prescaler.spec_triggers(),
        !state.forced_reload_pending,
        !state.forced_trigger_pending,
    ensures
        state.spec_tick().0.count == 0,
        !(DecrementingCounterState { auto_triggered_by: AutoTriggeredBy::AlreadyZero, ..state }).spec_tick().1,
        (DecrementingCounterState { auto_triggered_by: AutoTriggeredBy::EndingOnZero, ..state }).spec_tick().1,
{
}

} // verus!
