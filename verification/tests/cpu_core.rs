use reznez::config::CpuStepFormatting;
use reznez::cpu::cpu::{Cpu, IrqStatus, NmiStatus, OpCodeOutcome, ResetStatus};
use reznez::cpu::instruction::{AccessMode, Argument, Instruction, InstructionTemplate, OpCode};
use reznez::cpu::status::Status;
use reznez::cpu::cpu_mode::InterruptType;
use reznez::cpu::step_action::{Field, StepAction};
use reznez::cpu::step_execution::{ModeFacts, StepRequest};
use reznez::memory::cpu_address::CpuAddress;
use reznez::memory::cpu_pinout::CpuPinout;

fn cpu_with(a: u8, operand: u8, status: Status) -> Cpu {
    Cpu {
        a,
        x: 0,
        y: 0,
        stack_pointer: 0xFD,
        program_counter: CpuAddress::new(0x8000),
        status,
        nmi_status: NmiStatus::Inactive,
        irq_status: IrqStatus::Inactive,
        reset_status: ResetStatus::Inactive,
        current_interrupt_vector: None,
        pending_address_low: 0,
        pending_address_high: 0,
        computed_address: CpuAddress::new(0),
        address_carry: 0,
        operand,
        step_formatting: CpuStepFormatting::NoData,
    }
}

fn clear() -> Status {
    Status {
        negative: false,
        overflow: false,
        decimal: false,
        interrupts_disabled: false,
        zero: false,
        carry: false,
    }
}

#[test]
fn adc_sets_overflow_on_signed_wrap() {
    let mut cpu = cpu_with(0x50, 0x50, clear());
    assert_eq!(cpu.execute_op_code(OpCode::ADC, AccessMode::Imm), OpCodeOutcome::Done);
    assert_eq!(cpu.a, 0xA0);
    assert!(cpu.status.overflow);
    assert!(cpu.status.negative);
    assert!(!cpu.status.carry);
    assert!(!cpu.status.zero);
}

#[test]
fn adc_carries_out_and_in() {
    let mut status = clear();
    status.carry = true;
    let mut cpu = cpu_with(0xFF, 0x00, status);
    cpu.execute_op_code(OpCode::ADC, AccessMode::Imm);
    assert_eq!(cpu.a, 0x00);
    assert!(cpu.status.carry);
    assert!(cpu.status.zero);
    assert!(!cpu.status.overflow);
}

#[test]
fn sbc_borrows_when_carry_is_clear() {
    let mut cpu = cpu_with(0x05, 0x03, clear());
    cpu.execute_op_code(OpCode::SBC, AccessMode::Imm);
    assert_eq!(cpu.a, 0x01);
    assert!(cpu.status.carry);
}

#[test]
fn cmp_sets_carry_when_register_is_not_below() {
    let mut cpu = cpu_with(0x10, 0x20, clear());
    cpu.execute_op_code(OpCode::CMP, AccessMode::Imm);
    assert!(!cpu.status.carry);
    assert!(cpu.status.negative);
    let mut cpu = cpu_with(0x20, 0x20, clear());
    cpu.execute_op_code(OpCode::CMP, AccessMode::Imm);
    assert!(cpu.status.carry);
    assert!(cpu.status.zero);
}

#[test]
fn asl_on_accumulator_and_ror_on_operand() {
    let mut cpu = cpu_with(0x81, 0x00, clear());
    cpu.execute_op_code(OpCode::ASL, AccessMode::Imp);
    assert_eq!(cpu.a, 0x02);
    assert!(cpu.status.carry);

    let mut status = clear();
    status.carry = true;
    let mut cpu = cpu_with(0x00, 0x01, status);
    cpu.execute_op_code(OpCode::ROR, AccessMode::ZP);
    assert_eq!(cpu.operand, 0x80);
    assert_eq!(cpu.a, 0x00);
    assert!(cpu.status.carry);
    assert!(cpu.status.negative);
}

#[test]
fn dex_wraps_below_zero() {
    let mut cpu = cpu_with(0, 0, clear());
    cpu.execute_op_code(OpCode::DEX, AccessMode::Imp);
    assert_eq!(cpu.x, 0xFF);
    assert!(cpu.status.negative);
}

#[test]
fn taken_branch_moves_within_the_page_and_records_the_carry() {
    let mut cpu = cpu_with(0, 0x10, clear());
    cpu.program_counter = CpuAddress::new(0x80F8);
    assert_eq!(cpu.execute_op_code(OpCode::BNE, AccessMode::Rel), OpCodeOutcome::BranchTaken);
    assert_eq!(cpu.program_counter.to_raw(), 0x8008);
    assert_eq!(cpu.address_carry, 1);

    let mut cpu = cpu_with(0, 0xF0, clear());
    cpu.program_counter = CpuAddress::new(0x8005);
    cpu.execute_op_code(OpCode::BPL, AccessMode::Rel);
    assert_eq!(cpu.program_counter.to_raw(), 0x80F5);
    assert_eq!(cpu.address_carry, -1);
}

#[test]
fn untaken_branch_and_jam() {
    let mut status = clear();
    status.zero = true;
    let mut cpu = cpu_with(0, 0x10, status);
    assert_eq!(cpu.execute_op_code(OpCode::BNE, AccessMode::Rel), OpCodeOutcome::Done);
    assert_eq!(cpu.program_counter.to_raw(), 0x8000);
    assert_eq!(cpu.execute_op_code(OpCode::JAM, AccessMode::Imp), OpCodeOutcome::Jammed);
}

fn no_mode() -> ModeFacts {
    ModeFacts { suppress_next_instruction_start: false, interrupt_sequence_active: false, current_instruction: None }
}

#[test]
fn ready_reset_replaces_the_next_instruction() {
    let mut cpu = cpu_with(0, 0, clear());
    cpu.reset_status = ResetStatus::Ready;
    let mut pinout = CpuPinout::new();
    pinout.data_bus = 0xEA;
    let request = cpu.execute_step_action(&mut pinout, CpuAddress::new(0), no_mode(), StepAction::StartNextInstruction, 0xEA);
    assert_eq!(request, StepRequest::StartInterruptSequence(InterruptType::Reset));
    assert_eq!(cpu.reset_status, ResetStatus::Active);
    assert_eq!(pinout.data_bus, 0);

    let mut cpu = cpu_with(0, 0, clear());
    let request = cpu.execute_step_action(&mut pinout, CpuAddress::new(0), no_mode(), StepAction::StartNextInstruction, 0xEA);
    assert_eq!(request, StepRequest::StartInstruction(0xEA));
}

#[test]
fn interrupt_vector_prefers_nmi_to_irq_and_clears_statuses() {
    let mut cpu = cpu_with(0, 0, clear());
    cpu.nmi_status = NmiStatus::Active;
    cpu.irq_status = IrqStatus::Active;
    let mut pinout = CpuPinout::new();
    let request = cpu.execute_step_action(&mut pinout, CpuAddress::new(0), no_mode(), StepAction::SetInterruptVector, 0);
    assert_eq!(request, StepRequest::InterruptVectorSet(Some(InterruptType::Nmi)));
    assert_eq!(cpu.current_interrupt_vector, Some(InterruptType::Nmi));
    assert_eq!(cpu.nmi_status, NmiStatus::Inactive);
    assert_eq!(cpu.irq_status, IrqStatus::Inactive);
}

#[test]
fn offsetting_the_pending_address_records_the_carry() {
    let mut cpu = cpu_with(0, 0, clear());
    cpu.x = 0x20;
    cpu.pending_address_low = 0xF0;
    let mut pinout = CpuPinout::new();
    cpu.execute_step_action(&mut pinout, CpuAddress::new(0), no_mode(), StepAction::XOffsetPendingAddressLow, 0);
    assert_eq!(cpu.pending_address_low, 0x10);
    assert_eq!(cpu.address_carry, 1);
    let request = cpu.execute_step_action(&mut pinout, CpuAddress::new(0), no_mode(), StepAction::MaybeInsertOopsStep, 0);
    assert_eq!(request, StepRequest::Oops);
    cpu.execute_step_action(&mut pinout, CpuAddress::new(0x12F0), no_mode(), StepAction::AddCarryToAddress, 0);
    assert_eq!(cpu.computed_address.to_raw(), 0x13F0);
    assert_eq!(cpu.address_carry, 0);
}

#[test]
fn polling_activates_a_ready_irq_only_while_interrupts_are_enabled() {
    let mut status = clear();
    status.interrupts_disabled = true;
    let mut cpu = cpu_with(0, 0, status);
    cpu.irq_status = IrqStatus::Ready;
    let mut pinout = CpuPinout::new();
    cpu.execute_step_action(&mut pinout, CpuAddress::new(0), no_mode(), StepAction::PollInterrupts, 0);
    assert_eq!(cpu.irq_status, IrqStatus::Ready);
    cpu.status.interrupts_disabled = false;
    cpu.execute_step_action(&mut pinout, CpuAddress::new(0), no_mode(), StepAction::PollInterrupts, 0);
    assert_eq!(cpu.irq_status, IrqStatus::Active);
}

#[test]
fn pending_nmi_becomes_ready_before_a_pending_irq() {
    let mut cpu = cpu_with(0, 0, clear());
    cpu.nmi_status = NmiStatus::Pending;
    cpu.irq_status = IrqStatus::Pending;
    cpu.ready_pending_interrupt();
    assert_eq!(cpu.nmi_status, NmiStatus::Ready);
    assert_eq!(cpu.irq_status, IrqStatus::Pending);
    cpu.ready_pending_interrupt();
    assert_eq!(cpu.irq_status, IrqStatus::Ready);
}

#[test]
fn interrupt_lines_set_and_clear_the_statuses() {
    let mut cpu = cpu_with(0, 0, clear());
    cpu.sample_interrupt_lines(true, true, false);
    assert_eq!(cpu.nmi_status, NmiStatus::Pending);
    assert_eq!(cpu.irq_status, IrqStatus::Pending);
    cpu.irq_status = IrqStatus::Active;
    cpu.sample_interrupt_lines(false, false, true);
    assert_eq!(cpu.irq_status, IrqStatus::Active);
    cpu.sample_interrupt_lines(false, false, false);
    assert_eq!(cpu.irq_status, IrqStatus::Inactive);
}

#[test]
fn power_up_and_reset() {
    let mut cpu = Cpu::new(CpuStepFormatting::Data);
    assert_eq!(cpu.accumulator(), 0);
    assert_eq!(cpu.x_index(), 0);
    assert_eq!(cpu.y_index(), 0);
    assert_eq!(cpu.stack_pointer(), 0);
    assert_eq!(cpu.program_counter().to_raw(), 0);
    assert!(cpu.status().interrupts_disabled);
    assert_eq!(cpu.reset_status(), ResetStatus::Active);
    cpu.nmi_status = NmiStatus::Pending;
    cpu.address_carry = -1;
    cpu.reset();
    assert_eq!(cpu.reset_status(), ResetStatus::Ready);
    assert_eq!(cpu.nmi_status(), NmiStatus::Inactive);
    assert_eq!(cpu.address_carry, 0);
}

fn store(op_code: OpCode) -> ModeFacts {
    ModeFacts {
        suppress_next_instruction_start: false,
        interrupt_sequence_active: false,
        current_instruction: Some(Instruction {
            template: InstructionTemplate { code_point: 0, op_code, access_mode: AccessMode::Abs },
            argument: Argument::Addr(CpuAddress::new(0x0300)),
            page_boundary_crossed: false,
        }),
    }
}

#[test]
fn fields_read_for_write_steps() {
    let mut cpu = cpu_with(0xF0, 0x12, clear());
    cpu.x = 0x3C;
    cpu.program_counter = CpuAddress::new(0xC123);
    let mut bus = CpuAddress::new(0x0734);
    assert_eq!(cpu.field_value(&mut bus, no_mode(), Field::ProgramCounterHighByte), 0xC1);
    assert_eq!(cpu.field_value(&mut bus, no_mode(), Field::ProgramCounterLowByte), 0x23);
    assert_eq!(cpu.field_value(&mut bus, store(OpCode::SAX), Field::OpRegister), 0x30);
    assert_eq!(cpu.field_value(&mut bus, store(OpCode::SHX), Field::OpRegister), 0x3C & 0x07);
    assert_eq!(bus.to_raw(), 0x0434);
    let mut status = clear();
    status.carry = true;
    let mut cpu = cpu_with(0, 0, status);
    assert_eq!(cpu.field_value(&mut bus, no_mode(), Field::Status), 0b0011_0001);
}

#[test]
fn fields_set_by_read_steps() {
    let mut cpu = cpu_with(0, 0x34, clear());
    cpu.set_field_value(Field::ProgramCounterHighByte, 0x12);
    assert_eq!(cpu.program_counter.to_raw(), 0x1234);
    cpu.set_field_value(Field::Status, 0b1000_0011);
    assert!(cpu.status.negative && cpu.status.zero && cpu.status.carry);
    cpu.set_field_value(Field::Argument, 0x99);
    assert_eq!(cpu.operand, 0x99);
}
