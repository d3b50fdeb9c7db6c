use reznez::counter::decrementing_counter::{AutoTriggeredBy, DecrementingCounterBuilder, ForcedReloadTiming};
use reznez::counter::incrementing_counter::{IncAutoTriggeredBy, IncrementingCounterBuilder, WhenTargetReached};
use reznez::counter::when_disabled_prevent::WhenDisabledPrevent;

#[test]
fn decrementing_counter_reloads_and_triggers_on_zero() {
    let mut builder = DecrementingCounterBuilder::new();
    builder
        .auto_triggered_by(AutoTriggeredBy::EndingOnZero)
        .auto_reload(true)
        .on_forced_reload_set_count(ForcedReloadTiming::OnNextTick)
        .when_disabled_prevent(WhenDisabledPrevent::Triggering);
    let mut counter = builder.build();
    counter.enable();
    counter.set_reload_value(2);
    counter.force_reload();
    assert!(!counter.tick()); // reloads to 2
    assert_eq!(counter.to_irq_counter_info().count, 2);
    assert!(!counter.tick()); // 1
    assert!(counter.tick()); // 0: triggers
    assert!(!counter.tick()); // reloads to 2
    assert_eq!(counter.to_irq_counter_info().count, 2);
}

#[test]
fn decrementing_counter_disabled_triggering_does_not_trigger() {
    let mut builder = DecrementingCounterBuilder::new();
    builder
        .auto_triggered_by(AutoTriggeredBy::EndingOnZero)
        .auto_reload(false)
        .on_forced_reload_set_count(ForcedReloadTiming::Immediate)
        .when_disabled_prevent(WhenDisabledPrevent::Triggering)
        .initial_count(1);
    let mut counter = builder.build();
    counter.disable();
    assert!(!counter.tick());
    let info = counter.to_irq_counter_info();
    assert_eq!(info.count, 0);
    assert!(info.counting_enabled);
    assert!(!info.triggering_enabled);
}

#[test]
fn decrementing_counter_immediate_reload_sets_count() {
    let mut builder = DecrementingCounterBuilder::new();
    builder
        .auto_triggered_by(AutoTriggeredBy::AlreadyZero)
        .auto_reload(false)
        .on_forced_reload_set_count(ForcedReloadTiming::Immediate)
        .when_disabled_prevent(WhenDisabledPrevent::CountingAndTriggering);
    let mut counter = builder.build();
    counter.set_reload_value_low_byte(0x34);
    counter.set_reload_value_high_byte(0x12);
    counter.force_reload();
    assert_eq!(counter.to_irq_counter_info().count, 0x1234);
    // Ticking starts disabled for counters that can disable counting.
    assert!(!counter.tick());
    assert_eq!(counter.to_irq_counter_info().count, 0x1234);
}

#[test]
fn directly_set_decrementing_counter_bytes() {
    let mut builder = DecrementingCounterBuilder::new();
    builder
        .auto_triggered_by(AutoTriggeredBy::OneToZeroTransition)
        .auto_reload(false)
        .when_disabled_prevent(WhenDisabledPrevent::Counting);
    let mut counter = builder.build_directly_set();
    counter.set_count_low_byte(0x01);
    counter.set_count_high_byte(0x00);
    counter.enable();
    assert!(counter.tick());
    assert_eq!(counter.to_irq_counter_info().count, 0);
    assert!(!counter.tick());
}

#[test]
fn incrementing_counter_clears_at_target() {
    let mut builder = IncrementingCounterBuilder::new();
    builder
        .auto_triggered_by(IncAutoTriggeredBy::EndingOnTarget)
        .trigger_target(2)
        .when_target_reached(WhenTargetReached::Clear)
        .never_disabled();
    let mut counter = builder.build();
    assert!(!counter.tick()); // 1
    assert!(counter.tick()); // 2: on target
    assert!(!counter.tick()); // cleared to 0
    assert_eq!(counter.to_irq_counter_info().count, 0);
}

#[test]
fn incrementing_counter_stays_at_target() {
    let mut builder = IncrementingCounterBuilder::new();
    builder
        .auto_triggered_by(IncAutoTriggeredBy::AlreadyOnTarget)
        .trigger_target(1)
        .when_target_reached(WhenTargetReached::Stay)
        .when_disabled_prevent(WhenDisabledPrevent::Counting);
    let mut counter = builder.build();
    assert!(!counter.tick()); // 0 -> 1
    assert!(counter.tick()); // already on target, stays
    assert_eq!(counter.to_irq_counter_info().count, 1);
    counter.disable();
    counter.clear();
    assert_eq!(counter.count_low_byte(), 0);
    assert!(!counter.tick());
    assert_eq!(counter.count_low_byte(), 0);
}
