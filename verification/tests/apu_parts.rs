use reznez::apu::apu_clock::{ApuClock as FrameClock, CycleParity as Parity, StepMode};
use reznez::apu::apu_registers::{ApuClock, CycleParity};
use reznez::apu::length_counter::{LengthCounter, Status, TABLE};
use reznez::apu::timer::Timer;
use reznez::cpu::dma_transfer::{DmaTransfer, DmaTransferState};
use reznez::cpu::oam_dma::{OamDma, OamDmaAction};

#[test]
fn apu_clock_counts_and_alternates_parity() {
    let mut clock = ApuClock::new();
    assert!(clock.is_forced_reset_cycle());
    assert_eq!(clock.cycle_parity(), CycleParity::Get);
    clock.tick();
    clock.tick();
    clock.tick();
    assert_eq!(clock.cycle_parity(), CycleParity::Put);
    assert_eq!(clock.raw_apu_cycle(), 1);
    assert!(!clock.is_forced_reset_cycle());
    clock.reset();
    assert!(clock.is_forced_reset_cycle());
}

#[test]
fn length_counter_reload_is_delayed_and_ignored_after_a_clock() {
    let mut counter = LengthCounter::default();
    counter.set_count_from_lookup(1);
    assert_eq!(counter.count, 254);
    counter.start_reload(0);
    counter.apply_pending_values();
    assert_eq!(counter.count, TABLE[0]);

    counter.start_reload(3);
    counter.decrement_towards_zero();
    counter.apply_pending_values();
    assert_eq!(counter.count, TABLE[0] - 1);
}

#[test]
fn length_counter_halt_takes_effect_late() {
    let mut counter = LengthCounter::default();
    counter.set_count_from_lookup(4);
    counter.start_halt(true);
    assert_eq!(counter.status(), Status::HaltPending);
    counter.decrement_towards_zero();
    assert_eq!(counter.count, 39);
    counter.apply_pending_values();
    assert_eq!(counter.status(), Status::Halted);
    counter.decrement_towards_zero();
    assert_eq!(counter.count, 39);
    counter.set_to_zero();
    assert!(counter.is_zero());
}

#[test]
fn timer_wraps_to_its_period() {
    let mut timer = Timer::default();
    timer.set_period_and_reset_index(2);
    assert!(!timer.tick());
    assert!(!timer.tick());
    assert!(timer.tick());
    assert_eq!(timer.index, 2);
    timer.set_period_low(0x34);
    timer.set_period_high_and_reset_index(0xFA);
    assert_eq!(timer.period(), 0x234);
    assert_eq!(timer.index, 0x234);
}

#[test]
fn dma_transfer_walks_a_page() {
    let mut transfer = DmaTransfer::new(0x02, 7);
    assert_eq!(transfer.step(), DmaTransferState::WaitOnPreviousWrite);
    assert_eq!(transfer.step(), DmaTransferState::AlignToEven);
    assert_eq!(transfer.step(), DmaTransferState::Read);
    match transfer.step() {
        DmaTransferState::Write(address) => assert_eq!(address.to_raw(), 0x0200),
        other => panic!("expected a write, got {:?}", other),
    }
    assert_eq!(transfer.step(), DmaTransferState::Read);
    let mut last = DmaTransferState::Read;
    for _ in 0..600 {
        last = transfer.step();
    }
    assert_eq!(last, DmaTransferState::Finished);
    assert_eq!(DmaTransfer::inactive().step(), DmaTransferState::Finished);
}

#[test]
fn oam_dma_halts_aligns_reads_and_writes() {
    let mut dma = OamDma::idle();
    assert!(!dma.dma_pending());
    dma.prepare_to_start(0x03);
    assert!(dma.dma_pending());
    assert_eq!(dma.address().to_raw(), 0x0300);
    assert_eq!(dma.step(false, CycleParity::Get, false), OamDmaAction::DoNothing);
    assert_eq!(dma.step(true, CycleParity::Get, false), OamDmaAction::Halt);
    assert_eq!(dma.step(true, CycleParity::Get, false), OamDmaAction::Align);
    assert_eq!(dma.step(true, CycleParity::Put, false), OamDmaAction::Read);
    assert_eq!(dma.step(true, CycleParity::Get, true), OamDmaAction::DoNothing);
    assert_eq!(dma.step(true, CycleParity::Get, false), OamDmaAction::Write);
    dma.increment_address();
    assert_eq!(dma.address().to_raw(), 0x0301);
}

#[test]
fn texts_of_parity_and_length_counter() {
    assert_eq!(CycleParity::Get.to_string(), "GET");
    assert_eq!(CycleParity::Put.to_string(), "PUT");
    assert_eq!(reznez::apu::apu_clock::CycleParity::Put.to_string(), "PUT");
    let mut counter = LengthCounter::default();
    counter.set_count_from_lookup(8);
    assert_eq!(counter.to_string(), "(160)");
    counter.start_halt(true);
    assert_eq!(counter.to_string(), "(160, HaltPending)");
    counter.apply_pending_values();
    assert_eq!(counter.to_string(), "(160, Halted)");
    counter.start_halt(false);
    assert_eq!(counter.to_string(), "(160, UnhaltPending)");
}

#[test]
fn oam_dma_copies_a_whole_page_then_idles() {
    let mut dma = OamDma::idle();
    dma.prepare_to_start(0x02);
    assert_eq!(dma.step(true, CycleParity::Get, false), OamDmaAction::Halt);
    for _ in 0..256 {
        assert_eq!(dma.step(true, CycleParity::Put, false), OamDmaAction::Read);
        assert_eq!(dma.step(true, CycleParity::Get, false), OamDmaAction::Write);
    }
    assert_eq!(dma.step(true, CycleParity::Put, false), OamDmaAction::DoNothing);
    assert!(!dma.dma_pending());
}

#[test]
fn frame_clock_counts_after_many_ticks() {
    let mut clock = FrameClock::new();
    for _ in 0..29835u32 {
        clock.tick();
    }
    assert_eq!(clock.cpu_cycle(), 5);
    assert_eq!(clock.apu_cycle(), 2);
    assert_eq!(clock.raw_apu_cycle(), 14917);
    assert_eq!(clock.cycle_parity(), Parity::Put);
    assert_eq!(clock.step_mode(), StepMode::FourStep);
}

#[test]
fn frame_clock_step_mode_is_the_last_one_set() {
    let mut clock = FrameClock::new();
    assert_eq!(clock.step_mode(), StepMode::FourStep);
    clock.tick();
    clock.set_step_mode(StepMode::FiveStep);
    clock.reset();
    clock.tick();
    assert_eq!(clock.step_mode(), StepMode::FiveStep);
    clock.set_step_mode(StepMode::FourStep);
    clock.tick();
    assert_eq!(clock.step_mode(), StepMode::FourStep);
}
