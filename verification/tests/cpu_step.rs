use reznez::apu::apu_registers::CycleParity;
use reznez::config::CpuStepFormatting;
use reznez::cpu::cpu::{Cpu, NmiStatus};
use reznez::cpu::cpu_mode::CpuModeState;
use reznez::cpu::dmc_dma::DmcDma;
use reznez::cpu::oam_dma::OamDma;
use reznez::cpu::step::{begin_step, choose_step, interrupt_steps, reset_steps, Step, StepKind};
use reznez::cpu::step_action::{Field, From, StepAction, To};

fn read_operand_step() -> Step {
    Step {
        kind: StepKind::ReadField(Field::Argument, From::ProgramCounterTarget),
        actions: vec![StepAction::InterpretOpCode, StepAction::IncrementPC],
    }
}

#[test]
fn step_queries_and_removing_actions() {
    let step = Step::read_op_code_step();
    assert!(step.is_read());
    assert!(step.has_start_new_instruction());
    assert!(!step.has_interpret_op_code());
    let step = read_operand_step();
    assert!(step.has_interpret_op_code());
    let bare = step.with_actions_removed();
    assert_eq!(bare.kind, StepKind::Read(From::ProgramCounterTarget));
    assert!(bare.actions().is_empty());
    let write = Step::oam_write_step();
    assert!(!write.is_read());
    assert_eq!(write.actions(), &[StepAction::IncrementOamDmaAddress]);
    assert!(matches!(write.kind, StepKind::OamWrite(To::AddressTarget(_))));
}

#[test]
fn idle_dma_units_leave_the_step_alone() {
    let mut dmc_dma = DmcDma::idle();
    let mut oam_dma = OamDma::idle();
    let step = choose_step(read_operand_step(), &mut dmc_dma, &mut oam_dma, CycleParity::Get);
    assert_eq!(step.kind, StepKind::ReadField(Field::Argument, From::ProgramCounterTarget));
    assert_eq!(step.actions().len(), 2);
}

#[test]
fn oam_dma_halts_then_takes_over_the_bus() {
    let mut dmc_dma = DmcDma::idle();
    let mut oam_dma = OamDma::idle();
    oam_dma.prepare_to_start(0x02);
    let step = choose_step(read_operand_step(), &mut dmc_dma, &mut oam_dma, CycleParity::Get);
    assert_eq!(step.kind, StepKind::Read(From::ProgramCounterTarget));
    assert!(step.actions().is_empty());
    let step = choose_step(read_operand_step(), &mut dmc_dma, &mut oam_dma, CycleParity::Get);
    assert!(step.actions().is_empty());
    let step = choose_step(read_operand_step(), &mut dmc_dma, &mut oam_dma, CycleParity::Put);
    assert_eq!(step.kind, StepKind::OamRead(From::OamDmaAddressTarget));
}

#[test]
fn held_reset_does_nothing_and_a_pending_nmi_becomes_ready() {
    let mut cpu = Cpu::new(CpuStepFormatting::NoData);
    cpu.nmi_status = NmiStatus::Pending;
    let mut mode = CpuModeState::startup();
    let mut dmc_dma = DmcDma::idle();
    let mut oam_dma = OamDma::idle();
    let step = begin_step(&mut cpu, &mut mode, true, read_operand_step(), &mut dmc_dma, &mut oam_dma, CycleParity::Get);
    assert!(step.is_none());
    assert_eq!(cpu.nmi_status, NmiStatus::Pending);
    let step = begin_step(&mut cpu, &mut mode, false, read_operand_step(), &mut dmc_dma, &mut oam_dma, CycleParity::Get);
    assert!(step.is_some());
    assert_eq!(cpu.nmi_status, NmiStatus::Ready);
}

#[test]
fn reset_and_interrupt_tables() {
    let reset = reset_steps();
    assert_eq!(reset.len(), 7);
    assert_eq!(reset[4].actions(), &[StepAction::DecrementStackPointer, StepAction::SetInterruptVector]);
    assert_eq!(reset[6].kind, StepKind::ReadField(Field::ProgramCounterHighByte, From::InterruptVectorHigh));
    let interrupt = interrupt_steps();
    assert_eq!(interrupt.len(), 6);
    assert_eq!(interrupt[3].kind, StepKind::WriteField(Field::Status, To::TopOfStack));
    assert!(!interrupt[3].is_read());
}
