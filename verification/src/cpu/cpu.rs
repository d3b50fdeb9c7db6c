use vstd::prelude::*;

use crate::config::CpuStepFormatting;
use crate::cpu::cpu_mode::InterruptType;
use crate::cpu::instruction::{AccessMode, OpCode};
use crate::cpu::status::Status;
use crate::memory::cpu_address::{CpuAddress, lemma_view_injective};

verus! {

/// Where a non-maskable interrupt is in its handling.
#[derive(PartialEq, Eq, Clone, Copy, Debug, Structural)]
pub enum NmiStatus {
    Inactive,
    Pending,
    Ready,
    Active,
}
impl Default for NmiStatus {
    fn default() -> (status: Self)
        ensures status == NmiStatus::Inactive,
    {
        NmiStatus::Inactive
    }
}

/// Where an interrupt request is in its handling.
#[derive(PartialEq, Eq, Clone, Copy, Debug, Structural)]
pub enum IrqStatus {
    Inactive,
    Pending,
    Ready,
    Active,
}
impl Default for IrqStatus {
    fn default() -> (status: Self)
        ensures status == IrqStatus::Inactive,
    {
        IrqStatus::Inactive
    }
}

/// Where a reset is in its handling.
#[derive(PartialEq, Eq, Clone, Copy, Debug, Structural)]
pub enum ResetStatus {
    Inactive,
    Ready,
    Active,
}
impl Default for ResetStatus {
    fn default() -> (status: Self)
        ensures status == ResetStatus::Inactive,
    {
        ResetStatus::Inactive
    }
}

/// The status with N and Z set from a value: N is its bit 7, Z whether it is zero.
pub open spec fn with_nz(status: Status, value: u8) -> Status {
    Status { negative: value >= 128, zero: value == 0, ..status }
}

/// Adding with carry: the sum of the accumulator, the value and the carry, modulo 256; carry
/// out when the sum passes 255; overflow when the inputs share a sign that the result lacks.
pub open spec fn spec_adc(a: u8, value: u8, status: Status) -> (u8, Status) {
    let sum = a + value + if status.carry { 1int } else { 0int };
    let result = (sum % 256) as u8;
    (result, Status {
        carry: sum > 255,
        overflow: (a >= 128) == (value >= 128) && (a >= 128) != (result >= 128),
        ..with_nz(status, result)
    })
}

/// Comparing a register with a value: N and Z from their difference modulo 256, carry when the
/// register is not below the value.
pub open spec fn spec_compare(register: u8, value: u8, status: Status) -> Status {
    Status { carry: register >= value, ..with_nz(status, ((register - value + 256) % 256) as u8) }
}

/// Shifting left: bit 7 goes to the carry, and bit 0 becomes `bit0`.
pub open spec fn spec_shift_left(value: u8, bit0: bool, status: Status) -> (u8, Status) {
    let result = ((value * 2) % 256 + if bit0 { 1int } else { 0int }) as u8;
    (result, Status { carry: value >= 128, ..with_nz(status, result) })
}

/// Shifting right: bit 0 goes to the carry, and bit 7 becomes `bit7`.
pub open spec fn spec_shift_right(value: u8, bit7: bool, status: Status) -> (u8, Status) {
    let result = (value / 2 + if bit7 { 128int } else { 0int }) as u8;
    (result, Status { carry: value % 2 == 1, ..with_nz(status, result) })
}

/// The registers, latches and interrupt statuses of the 6502.
#[derive(Clone, Copy, Debug)]
pub struct Cpu {
    /// The accumulator.
    pub a: u8,
    /// The X index.
    pub x: u8,
    /// The Y index.
    pub y: u8,
    pub stack_pointer: u8,
    pub program_counter: CpuAddress,
    pub status: Status,

    pub nmi_status: NmiStatus,
    pub irq_status: IrqStatus,
    pub reset_status: ResetStatus,

    pub current_interrupt_vector: Option<InterruptType>,

    pub pending_address_low: u8,
    pub pending_address_high: u8,
    pub computed_address: CpuAddress,
    pub address_carry: i8,
    pub operand: u8,

    pub step_formatting: CpuStepFormatting,
}

/// What executing an op code leaves for the instruction sequencing to do.
#[derive(PartialEq, Eq, Clone, Copy, Debug, Structural)]
pub enum OpCodeOutcome {
    /// Nothing more.
    Done,
    /// A branch was taken: the program counter moved within its page, and the step that fixes
    /// the page (if the carry asks for it) follows.
    BranchTaken,
    /// The CPU jams.
    Jammed,
}

/// The op codes that the execute step carries out; the stores are done by their write steps,
/// and the jumps, calls, returns and pushes by their steps alone.
pub open spec fn is_executed_op_code(op_code: OpCode) -> bool {
    !(op_code == OpCode::STA || op_code == OpCode::STX || op_code == OpCode::STY || op_code == OpCode::SAX
        || op_code == OpCode::SHX || op_code == OpCode::SHY || op_code == OpCode::TAS || op_code == OpCode::AHX
        || op_code == OpCode::BRK || op_code == OpCode::RTI || op_code == OpCode::JSR || op_code == OpCode::RTS
        || op_code == OpCode::JMP || op_code == OpCode::PHA || op_code == OpCode::PHP)
}

/// Whether a branch op code branches with these flags.
pub open spec fn branch_condition(op_code: OpCode, status: Status) -> bool {
    match op_code {
        OpCode::BPL => !status.negative,
        OpCode::BMI => status.negative,
        OpCode::BVC => !status.overflow,
        OpCode::BVS => status.overflow,
        OpCode::BCC => !status.carry,
        OpCode::BCS => status.carry,
        OpCode::BNE => !status.zero,
        OpCode::BEQ => status.zero,
        _ => false,
    }
}

/// Whether the op code is a branch.
pub open spec fn is_branch(op_code: OpCode) -> bool {
    op_code == OpCode::BPL || op_code == OpCode::BMI || op_code == OpCode::BVC || op_code == OpCode::BVS
        || op_code == OpCode::BCC || op_code == OpCode::BCS || op_code == OpCode::BNE || op_code == OpCode::BEQ
}

/// The operand as a signed byte.
pub open spec fn signed(value: u8) -> int {
    if value < 128 { value as int } else { value - 256 }
}

/// The CPU after a taken branch: the program counter moved by the signed operand within its
/// page, and the carry recording which way the page was left.
pub open spec fn spec_branched(cpu: Cpu) -> Cpu {
    let pc = cpu.program_counter@;
    let low = pc % 256 + signed(cpu.operand);
    Cpu {
        program_counter: pc_at((pc / 256) * 256 + low % 256),
        address_carry: if low > 255 { 1i8 } else if low < 0 { -1i8 } else { 0i8 },
        ..cpu
    }
}

/// Some address with the given value; addresses are equal when their values are.
pub open spec fn pc_at(value: int) -> CpuAddress {
    choose|address: CpuAddress| address@ == value
}

/// The CPU after an op code that moves values between registers, loads one or sets a flag.
pub open spec fn spec_register_op(cpu: Cpu, op_code: OpCode) -> Cpu {
    let s = cpu.status;
    let a = cpu.a;
    let x = cpu.x;
    let y = cpu.y;
    let op = cpu.operand;
    match op_code {
        OpCode::INX => Cpu { x: ((x + 1) % 256) as u8, status: with_nz(s, ((x + 1) % 256) as u8), ..cpu },
        OpCode::INY => Cpu { y: ((y + 1) % 256) as u8, status: with_nz(s, ((y + 1) % 256) as u8), ..cpu },
        OpCode::DEX => Cpu { x: ((x + 255) % 256) as u8, status: with_nz(s, ((x + 255) % 256) as u8), ..cpu },
        OpCode::DEY => Cpu { y: ((y + 255) % 256) as u8, status: with_nz(s, ((y + 255) % 256) as u8), ..cpu },
        OpCode::TAX => Cpu { x: a, status: with_nz(s, a), ..cpu },
        OpCode::TAY => Cpu { y: a, status: with_nz(s, a), ..cpu },
        OpCode::TSX => Cpu { x: cpu.stack_pointer, status: with_nz(s, cpu.stack_pointer), ..cpu },
        OpCode::TXS => Cpu { stack_pointer: x, ..cpu },
        OpCode::TXA => Cpu { a: x, status: with_nz(s, x), ..cpu },
        OpCode::TYA => Cpu { a: y, status: with_nz(s, y), ..cpu },
        OpCode::PLA | OpCode::LDA => Cpu { a: op, status: with_nz(s, op), ..cpu },
        OpCode::PLP => Cpu { status: Status::spec_from_byte(op), ..cpu },
        OpCode::CLC => Cpu { status: Status { carry: false, ..s }, ..cpu },
        OpCode::SEC => Cpu { status: Status { carry: true, ..s }, ..cpu },
        OpCode::CLD => Cpu { status: Status { decimal: false, ..s }, ..cpu },
        OpCode::SED => Cpu { status: Status { decimal: true, ..s }, ..cpu },
        OpCode::CLI => Cpu { status: Status { interrupts_disabled: false, ..s }, ..cpu },
        OpCode::SEI => Cpu { status: Status { interrupts_disabled: true, ..s }, ..cpu },
        OpCode::CLV => Cpu { status: Status { overflow: false, ..s }, ..cpu },
        OpCode::LDX => Cpu { x: op, status: with_nz(s, op), ..cpu },
        OpCode::LDY => Cpu { y: op, status: with_nz(s, op), ..cpu },
        _ => cpu,
    }
}

/// The CPU after an op code that combines the operand with the registers.
pub open spec fn spec_alu_op(cpu: Cpu, op_code: OpCode) -> Cpu {
    let s = cpu.status;
    let a = cpu.a;
    let x = cpu.x;
    let y = cpu.y;
    let op = cpu.operand;
    match op_code {
        OpCode::CMP => Cpu { status: spec_compare(a, op, s), ..cpu },
        OpCode::CPX => Cpu { status: spec_compare(x, op, s), ..cpu },
        OpCode::CPY => Cpu { status: spec_compare(y, op, s), ..cpu },
        OpCode::ORA => Cpu { a: a | op, status: with_nz(s, a | op), ..cpu },
        OpCode::AND => Cpu { a: a & op, status: with_nz(s, a & op), ..cpu },
        OpCode::EOR => Cpu { a: a ^ op, status: with_nz(s, a ^ op), ..cpu },
        OpCode::ADC => Cpu { a: spec_adc(a, op, s).0, status: spec_adc(a, op, s).1, ..cpu },
        OpCode::SBC => Cpu { a: spec_adc(a, op ^ 0xFF, s).0, status: spec_adc(a, op ^ 0xFF, s).1, ..cpu },
        OpCode::LAX => Cpu { a: op, x: op, status: with_nz(s, op), ..cpu },
        OpCode::ANC => Cpu { a: a & op, status: Status { carry: (a & op) >= 128, ..with_nz(s, a & op) }, ..cpu },
        OpCode::ALR => {
            let (value, status) = spec_shift_right(a & op, false, with_nz(s, a & op));
            Cpu { a: value, status, ..cpu }
        },
        OpCode::ARR => {
            let value = (((a & op) / 2) + if s.carry { 128int } else { 0int }) as u8;
            Cpu {
                a: value,
                status: Status {
                    carry: value & 0x40 != 0,
                    overflow: (value & 0x40 != 0) != (value & 0x20 != 0),
                    ..with_nz(s, value)
                },
                ..cpu
            }
        },
        OpCode::AXS => {
            let value = (((a & x) - op + 256) % 256) as u8;
            Cpu { x: value, status: Status { carry: (a & x) >= op, ..with_nz(s, value) }, ..cpu }
        },
        OpCode::BIT => Cpu {
            status: Status { negative: op >= 128, overflow: op & 0x40 != 0, zero: op & a == 0, ..s },
            ..cpu
        },
        OpCode::LAS => {
            let value = op & cpu.stack_pointer;
            Cpu { a: value, x: value, stack_pointer: value, ..cpu }
        },
        OpCode::XAA => Cpu { a: a & x & op, status: with_nz(s, a & x & op), ..cpu },
        _ => cpu,
    }
}

/// The CPU after an op code that reads, changes and writes back a value: the accumulator where
/// the access mode is implied, else the operand.
pub open spec fn spec_read_modify_write_op(cpu: Cpu, op_code: OpCode, access_mode: AccessMode) -> Cpu {
    let s = cpu.status;
    let a = cpu.a;
    let op = cpu.operand;
    match op_code {
        OpCode::ASL => if access_mode == AccessMode::Imp {
            let (value, status) = spec_shift_left(a, false, s);
            Cpu { a: value, status, ..cpu }
        } else {
            let (value, status) = spec_shift_left(op, false, s);
            Cpu { operand: value, status, ..cpu }
        },
        OpCode::ROL => if access_mode == AccessMode::Imp {
            let (value, status) = spec_shift_left(a, s.carry, s);
            Cpu { a: value, status, ..cpu }
        } else {
            let (value, status) = spec_shift_left(op, s.carry, s);
            Cpu { operand: value, status, ..cpu }
        },
        OpCode::LSR => if access_mode == AccessMode::Imp {
            let (value, status) = spec_shift_right(a, false, s);
            Cpu { a: value, status, ..cpu }
        } else {
            let (value, status) = spec_shift_right(op, false, s);
            Cpu { operand: value, status, ..cpu }
        },
        OpCode::ROR => if access_mode == AccessMode::Imp {
            let (value, status) = spec_shift_right(a, s.carry, s);
            Cpu { a: value, status, ..cpu }
        } else {
            let (value, status) = spec_shift_right(op, s.carry, s);
            Cpu { operand: value, status, ..cpu }
        },
        OpCode::INC => Cpu { operand: ((op + 1) % 256) as u8, status: with_nz(s, ((op + 1) % 256) as u8), ..cpu },
        OpCode::DEC => Cpu { operand: ((op + 255) % 256) as u8, status: with_nz(s, ((op + 255) % 256) as u8), ..cpu },
        OpCode::SLO => {
            let (value, status) = spec_shift_left(op, false, s);
            Cpu { operand: value, a: a | value, status: with_nz(status, a | value), ..cpu }
        },
        OpCode::SRE => {
            let (value, status) = spec_shift_right(op, false, s);
            Cpu { operand: value, a: a ^ value, status: with_nz(status, a ^ value), ..cpu }
        },
        OpCode::RLA => {
            let (value, status) = spec_shift_left(op, s.carry, s);
            Cpu { operand: value, a: a & value, status: with_nz(status, a & value), ..cpu }
        },
        OpCode::RRA => {
            let (value, status) = spec_shift_right(op, s.carry, s);
            let (sum, status2) = spec_adc(a, value, status);
            Cpu { operand: value, a: sum, status: status2, ..cpu }
        },
        OpCode::ISC => {
            let value = ((op + 1) % 256) as u8;
            Cpu { operand: value, a: spec_adc(a, value ^ 0xFF, s).0, status: spec_adc(a, value ^ 0xFF, s).1, ..cpu }
        },
        OpCode::DCP => {
            let value = ((op + 255) % 256) as u8;
            Cpu { operand: value, status: spec_compare(a, value, s), ..cpu }
        },
        _ => cpu,
    }
}

/// The CPU after the execute step of an op code (one for which `is_executed_op_code` holds), and
/// what remains to be done.
pub open spec fn spec_execute(cpu: Cpu, op_code: OpCode, access_mode: AccessMode) -> (Cpu, OpCodeOutcome) {
    if is_register_op(op_code) {
        (spec_register_op(cpu, op_code), OpCodeOutcome::Done)
    } else if is_alu_op(op_code) {
        (spec_alu_op(cpu, op_code), OpCodeOutcome::Done)
    } else if is_read_modify_write_op(op_code) {
        (spec_read_modify_write_op(cpu, op_code, access_mode), OpCodeOutcome::Done)
    } else if op_code == OpCode::JAM {
        (cpu, OpCodeOutcome::Jammed)
    } else if is_branch(op_code) && branch_condition(op_code, cpu.status) {
        (spec_branched(cpu), OpCodeOutcome::BranchTaken)
    } else {
        (cpu, OpCodeOutcome::Done)
    }
}

/// The op codes that move values between registers, load them or set flags.
pub open spec fn is_register_op(op_code: OpCode) -> bool {
    match op_code {
        OpCode::INX | OpCode::INY | OpCode::DEX | OpCode::DEY | OpCode::TAX | OpCode::TAY | OpCode::TSX
        | OpCode::TXS | OpCode::TXA | OpCode::TYA | OpCode::PLA | OpCode::LDA | OpCode::PLP | OpCode::CLC
        | OpCode::SEC | OpCode::CLD | OpCode::SED | OpCode::CLI | OpCode::SEI | OpCode::CLV | OpCode::LDX
        | OpCode::LDY => true,
        _ => false,
    }
}

/// The op codes that combine the operand with the registers.
pub open spec fn is_alu_op(op_code: OpCode) -> bool {
    match op_code {
        OpCode::CMP | OpCode::CPX | OpCode::CPY | OpCode::ORA | OpCode::AND | OpCode::EOR | OpCode::ADC
        | OpCode::SBC | OpCode::LAX | OpCode::ANC | OpCode::ALR | OpCode::ARR | OpCode::AXS | OpCode::BIT
        | OpCode::LAS | OpCode::XAA => true,
        _ => false,
    }
}

/// The op codes that read, change and write back a value.
pub open spec fn is_read_modify_write_op(op_code: OpCode) -> bool {
    match op_code {
        OpCode::ASL | OpCode::ROL | OpCode::LSR | OpCode::ROR | OpCode::INC | OpCode::DEC | OpCode::SLO
        | OpCode::SRE | OpCode::RLA | OpCode::RRA | OpCode::ISC | OpCode::DCP => true,
        _ => false,
    }
}

fn is_register_op_code(op_code: OpCode) -> (result: bool)
    ensures result == is_register_op(op_code),
{
    match op_code {
        OpCode::INX | OpCode::INY | OpCode::DEX | OpCode::DEY | OpCode::TAX | OpCode::TAY | OpCode::TSX
        | OpCode::TXS | OpCode::TXA | OpCode::TYA | OpCode::PLA | OpCode::LDA | OpCode::PLP | OpCode::CLC
        | OpCode::SEC | OpCode::CLD | OpCode::SED | OpCode::CLI | OpCode::SEI | OpCode::CLV | OpCode::LDX
        | OpCode::LDY => true,
        _ => false,
    }
}

fn is_alu_op_code(op_code: OpCode) -> (result: bool)
    ensures result == is_alu_op(op_code),
{
    match op_code {
        OpCode::CMP | OpCode::CPX | OpCode::CPY | OpCode::ORA | OpCode::AND | OpCode::EOR | OpCode::ADC
        | OpCode::SBC | OpCode::LAX | OpCode::ANC | OpCode::ALR | OpCode::ARR | OpCode::AXS | OpCode::BIT
        | OpCode::LAS | OpCode::XAA => true,
        _ => false,
    }
}

fn is_read_modify_write_op_code(op_code: OpCode) -> (result: bool)
    ensures result == is_read_modify_write_op(op_code),
{
    match op_code {
        OpCode::ASL | OpCode::ROL | OpCode::LSR | OpCode::ROR | OpCode::INC | OpCode::DEC | OpCode::SLO
        | OpCode::SRE | OpCode::RLA | OpCode::RRA | OpCode::ISC | OpCode::DCP => true,
        _ => false,
    }
}

fn nz(status: Status, value: u8) -> (result: Status)
    ensures result == with_nz(status, value),
{
    Status { negative: value >= 0x80, zero: value == 0, ..status }
}

fn adc(a: u8, value: u8, status: Status) -> (result: (u8, Status))
    ensures result == spec_adc(a, value, status),
{
    let carry: u16 = if status.carry { 1 } else { 0 };
    let sum: u16 = a as u16 + value as u16 + carry;
    let result = (sum % 256) as u8;
    let overflow = ((a >= 0x80) == (value >= 0x80)) && ((a >= 0x80) != (result >= 0x80));
    (result, Status { carry: sum > 0xFF, overflow, ..nz(status, result) })
}

fn compare(register: u8, value: u8, status: Status) -> (result: Status)
    ensures result == spec_compare(register, value, status),
{
    Status { carry: register >= value, ..nz(status, register.wrapping_sub(value)) }
}

fn shift_left(value: u8, bit0: bool, status: Status) -> (result: (u8, Status))
    ensures result == spec_shift_left(value, bit0, status),
{
    let shifted = (value % 0x80) * 2;
    let result = if bit0 { shifted + 1 } else { shifted };
    (result, Status { carry: value >= 0x80, ..nz(status, result) })
}

fn shift_right(value: u8, bit7: bool, status: Status) -> (result: (u8, Status))
    ensures result == spec_shift_right(value, bit7, status),
{
    let shifted = value / 2;
    let result = if bit7 { shifted + 0x80 } else { shifted };
    (result, Status { carry: value % 2 == 1, ..nz(status, result) })
}

/// Incrementing or decrementing an index register.
fn count_op(cpu: Cpu, op_code: OpCode) -> (result: Cpu)
    requires
        op_code == OpCode::INX || op_code == OpCode::INY || op_code == OpCode::DEX
            || op_code == OpCode::DEY,
    ensures
        result == spec_register_op(cpu, op_code),
{
    let s = cpu.status;
    let x = cpu.x;
    let y = cpu.y;
    match op_code {
        OpCode::INX => Cpu { x: x.wrapping_add(1), status: nz(s, x.wrapping_add(1)), ..cpu },
        OpCode::INY => Cpu { y: y.wrapping_add(1), status: nz(s, y.wrapping_add(1)), ..cpu },
        OpCode::DEX => Cpu { x: x.wrapping_sub(1), status: nz(s, x.wrapping_sub(1)), ..cpu },
        _ => Cpu { y: y.wrapping_sub(1), status: nz(s, y.wrapping_sub(1)), ..cpu },
    }
}

/// Copying one register to another.
fn transfer_op(cpu: Cpu, op_code: OpCode) -> (result: Cpu)
    requires
        op_code == OpCode::TAX || op_code == OpCode::TAY || op_code == OpCode::TSX
            || op_code == OpCode::TXS || op_code == OpCode::TXA || op_code == OpCode::TYA,
    ensures
        result == spec_register_op(cpu, op_code),
{
    let s = cpu.status;
    let a = cpu.a;
    let x = cpu.x;
    let y = cpu.y;
    match op_code {
        OpCode::TAX => Cpu { x: a, status: nz(s, a), ..cpu },
        OpCode::TAY => Cpu { y: a, status: nz(s, a), ..cpu },
        OpCode::TSX => Cpu { x: cpu.stack_pointer, status: nz(s, cpu.stack_pointer), ..cpu },
        OpCode::TXS => Cpu { stack_pointer: x, ..cpu },
        OpCode::TXA => Cpu { a: x, status: nz(s, x), ..cpu },
        _ => Cpu { a: y, status: nz(s, y), ..cpu },
    }
}

/// Loading the operand into a register or the flags.
fn load_op(cpu: Cpu, op_code: OpCode) -> (result: Cpu)
    requires
        op_code == OpCode::PLA || op_code == OpCode::LDA || op_code == OpCode::LDX
            || op_code == OpCode::LDY || op_code == OpCode::PLP,
    ensures
        result == spec_register_op(cpu, op_code),
{
    let s = cpu.status;
    let op = cpu.operand;
    match op_code {
        OpCode::PLA | OpCode::LDA => Cpu { a: op, status: nz(s, op), ..cpu },
        OpCode::LDX => Cpu { x: op, status: nz(s, op), ..cpu },
        OpCode::LDY => Cpu { y: op, status: nz(s, op), ..cpu },
        _ => Cpu { status: Status::from_byte(op), ..cpu },
    }
}

/// Setting or clearing a flag.
fn flag_op(cpu: Cpu, op_code: OpCode) -> (result: Cpu)
    requires
        op_code == OpCode::CLC || op_code == OpCode::SEC || op_code == OpCode::CLD
            || op_code == OpCode::SED || op_code == OpCode::CLI || op_code == OpCode::SEI
            || op_code == OpCode::CLV,
    ensures
        result == spec_register_op(cpu, op_code),
{
    let s = cpu.status;
    match op_code {
        OpCode::CLC => Cpu { status: Status { carry: false, ..s }, ..cpu },
        OpCode::SEC => Cpu { status: Status { carry: true, ..s }, ..cpu },
        OpCode::CLD => Cpu { status: Status { decimal: false, ..s }, ..cpu },
        OpCode::SED => Cpu { status: Status { decimal: true, ..s }, ..cpu },
        OpCode::CLI => Cpu { status: Status { interrupts_disabled: false, ..s }, ..cpu },
        OpCode::SEI => Cpu { status: Status { interrupts_disabled: true, ..s }, ..cpu },
        _ => Cpu { status: Status { overflow: false, ..s }, ..cpu },
    }
}

/// Comparing, or combining bitwise, the operand with a register.
fn logic_op(cpu: Cpu, op_code: OpCode) -> (result: Cpu)
    requires
        op_code == OpCode::CMP || op_code == OpCode::CPX || op_code == OpCode::CPY
            || op_code == OpCode::ORA || op_code == OpCode::AND || op_code == OpCode::EOR,
    ensures
        result == spec_alu_op(cpu, op_code),
{
    let s = cpu.status;
    let a = cpu.a;
    let x = cpu.x;
    let y = cpu.y;
    let op = cpu.operand;
    match op_code {
        OpCode::CMP => Cpu { status: compare(a, op, s), ..cpu },
        OpCode::CPX => Cpu { status: compare(x, op, s), ..cpu },
        OpCode::CPY => Cpu { status: compare(y, op, s), ..cpu },
        OpCode::ORA => Cpu { a: a | op, status: nz(s, a | op), ..cpu },
        OpCode::AND => Cpu { a: a & op, status: nz(s, a & op), ..cpu },
        _ => Cpu { a: a ^ op, status: nz(s, a ^ op), ..cpu },
    }
}

/// Adding or subtracting the operand, or loading it into two registers.
fn arithmetic_op(cpu: Cpu, op_code: OpCode) -> (result: Cpu)
    requires
        op_code == OpCode::ADC || op_code == OpCode::SBC || op_code == OpCode::LAX
            || op_code == OpCode::ANC,
    ensures
        result == spec_alu_op(cpu, op_code),
{
    let s = cpu.status;
    let a = cpu.a;
    let x = cpu.x;
    let op = cpu.operand;
    match op_code {
        OpCode::ADC => {
            let (sum, status) = adc(a, op, s);
            Cpu { a: sum, status, ..cpu }
        },
        OpCode::SBC => {
            let (difference, status) = adc(a, op ^ 0xFF, s);
            Cpu { a: difference, status, ..cpu }
        },
        OpCode::LAX => Cpu { a: op, x: op, status: nz(s, op), ..cpu },
        _ => {
            let status = nz(s, a & op);
            Cpu { a: a & op, status: Status { carry: status.negative, ..status }, ..cpu }
        },
    }
}

/// The undocumented op codes that combine several effects, and the bit test.
fn combined_op(cpu: Cpu, op_code: OpCode) -> (result: Cpu)
    requires
        op_code == OpCode::ALR || op_code == OpCode::ARR || op_code == OpCode::AXS
            || op_code == OpCode::BIT || op_code == OpCode::LAS || op_code == OpCode::XAA,
    ensures
        result == spec_alu_op(cpu, op_code),
{
    let s = cpu.status;
    let a = cpu.a;
    let x = cpu.x;
    let op = cpu.operand;
    match op_code {
        OpCode::ALR => {
            let (value, status) = shift_right(a & op, false, nz(s, a & op));
            Cpu { a: value, status, ..cpu }
        },
        OpCode::ARR => {
            let value = (a & op) / 2 + if s.carry { 0x80u8 } else { 0x00u8 };
            let carry = value & 0x40 != 0;
            Cpu {
                a: value,
                status: Status { carry, overflow: carry != (value & 0x20 != 0), ..nz(s, value) },
                ..cpu
            }
        },
        OpCode::AXS => {
            let ax = a & x;
            let value = ax.wrapping_sub(op);
            Cpu { x: value, status: Status { carry: ax >= op, ..nz(s, value) }, ..cpu }
        },
        OpCode::BIT => {
            Cpu {
                status: Status {
                    negative: op >= 0x80,
                    overflow: op & 0b0100_0000 != 0,
                    zero: op & a == 0,
                    ..s
                },
                ..cpu
            }
        },
        OpCode::LAS => {
            let value = op & cpu.stack_pointer;
            Cpu { a: value, x: value, stack_pointer: value, ..cpu }
        },
        _ => Cpu { a: a & x & op, status: nz(s, a & x & op), ..cpu },
    }
}

/// Shifting, rotating, incrementing or decrementing the accumulator or the operand.
fn shift_op(cpu: Cpu, op_code: OpCode, access_mode: AccessMode) -> (result: Cpu)
    requires
        op_code == OpCode::ASL || op_code == OpCode::ROL || op_code == OpCode::LSR
            || op_code == OpCode::ROR || op_code == OpCode::INC || op_code == OpCode::DEC,
    ensures
        result == spec_read_modify_write_op(cpu, op_code, access_mode),
{
    let s = cpu.status;
    let a = cpu.a;
    let op = cpu.operand;
    let on_accumulator = access_mode == AccessMode::Imp;
    match op_code {
        OpCode::ASL | OpCode::ROL | OpCode::LSR | OpCode::ROR => {
            let input = if on_accumulator { a } else { op };
            let (value, status) = match op_code {
                OpCode::ASL => shift_left(input, false, s),
                OpCode::ROL => shift_left(input, s.carry, s),
                OpCode::LSR => shift_right(input, false, s),
                _ => shift_right(input, s.carry, s),
            };
            if on_accumulator {
                Cpu { a: value, status, ..cpu }
            } else {
                Cpu { operand: value, status, ..cpu }
            }
        },
        OpCode::INC => Cpu { operand: op.wrapping_add(1), status: nz(s, op.wrapping_add(1)), ..cpu },
        _ => Cpu { operand: op.wrapping_sub(1), status: nz(s, op.wrapping_sub(1)), ..cpu },
    }
}

/// The undocumented op codes that shift the operand and combine it bitwise with the accumulator.
fn shift_logic_op(cpu: Cpu, op_code: OpCode, access_mode: AccessMode) -> (result: Cpu)
    requires
        op_code == OpCode::SLO || op_code == OpCode::SRE || op_code == OpCode::RLA,
    ensures
        result == spec_read_modify_write_op(cpu, op_code, access_mode),
{
    let s = cpu.status;
    let a = cpu.a;
    let op = cpu.operand;
    match op_code {
        OpCode::SLO => {
            let (value, status) = shift_left(op, false, s);
            Cpu { operand: value, a: a | value, status: nz(status, a | value), ..cpu }
        },
        OpCode::SRE => {
            let (value, status) = shift_right(op, false, s);
            Cpu { operand: value, a: a ^ value, status: nz(status, a ^ value), ..cpu }
        },
        _ => {
            let (value, status) = shift_left(op, s.carry, s);
            Cpu { operand: value, a: a & value, status: nz(status, a & value), ..cpu }
        },
    }
}

/// The undocumented op codes that change the operand and add it to, subtract it from or
/// compare it with the accumulator.
fn shift_arithmetic_op(cpu: Cpu, op_code: OpCode, access_mode: AccessMode) -> (result: Cpu)
    requires
        op_code == OpCode::RRA || op_code == OpCode::ISC || op_code == OpCode::DCP,
    ensures
        result == spec_read_modify_write_op(cpu, op_code, access_mode),
{
    let s = cpu.status;
    let a = cpu.a;
    let op = cpu.operand;
    match op_code {
        OpCode::RRA => {
            let (value, status) = shift_right(op, s.carry, s);
            let (sum, status) = adc(a, value, status);
            Cpu { operand: value, a: sum, status, ..cpu }
        },
        OpCode::ISC => {
            let value = op.wrapping_add(1);
            let (difference, status) = adc(a, value ^ 0xFF, s);
            Cpu { operand: value, a: difference, status, ..cpu }
        },
        _ => {
            let value = op.wrapping_sub(1);
            Cpu { operand: value, status: compare(a, value, s), ..cpu }
        },
    }
}

/// The CPU after an op code that moves values between registers, loads one or sets a flag.
fn register_op(cpu: Cpu, op_code: OpCode) -> (result: Cpu)
    requires
        is_register_op(op_code),
    ensures
        result == spec_register_op(cpu, op_code),
{
    match op_code {
        OpCode::INX | OpCode::INY | OpCode::DEX | OpCode::DEY => count_op(cpu, op_code),
        OpCode::TAX | OpCode::TAY | OpCode::TSX | OpCode::TXS | OpCode::TXA | OpCode::TYA => transfer_op(cpu, op_code),
        OpCode::PLA | OpCode::LDA | OpCode::LDX | OpCode::LDY | OpCode::PLP => load_op(cpu, op_code),
        _ => flag_op(cpu, op_code),
    }
}

/// The CPU after an op code that combines the operand with the registers.
fn alu_op(cpu: Cpu, op_code: OpCode) -> (result: Cpu)
    requires
        is_alu_op(op_code),
    ensures
        result == spec_alu_op(cpu, op_code),
{
    match op_code {
        OpCode::CMP | OpCode::CPX | OpCode::CPY | OpCode::ORA | OpCode::AND | OpCode::EOR => logic_op(cpu, op_code),
        OpCode::ADC | OpCode::SBC | OpCode::LAX | OpCode::ANC => arithmetic_op(cpu, op_code),
        _ => combined_op(cpu, op_code),
    }
}

/// The CPU after an op code that reads, changes and writes back a value: the accumulator where
/// the access mode is implied, else the operand.
fn read_modify_write_op(cpu: Cpu, op_code: OpCode, access_mode: AccessMode) -> (result: Cpu)
    requires
        is_read_modify_write_op(op_code),
    ensures
        result == spec_read_modify_write_op(cpu, op_code, access_mode),
{
    match op_code {
        OpCode::ASL | OpCode::ROL | OpCode::LSR | OpCode::ROR | OpCode::INC | OpCode::DEC => shift_op(cpu, op_code, access_mode),
        OpCode::SLO | OpCode::SRE | OpCode::RLA => shift_logic_op(cpu, op_code, access_mode),
        _ => shift_arithmetic_op(cpu, op_code, access_mode),
    }
}

impl Cpu {
    /// The power-up state: registers cleared, interrupts disabled, and a RESET under way. (The
    /// mode state, which walks through the steps, is held beside the CPU.)
    pub fn new(step_formatting: CpuStepFormatting) -> (cpu: Cpu)
        ensures
            cpu == (Cpu {
                a: 0,
                x: 0,
                y: 0,
                stack_pointer: 0,
                program_counter: pc_at(0),
                status: Status {
                    negative: false,
                    overflow: false,
                    decimal: false,
                    interrupts_disabled: true,
                    zero: false,
                    carry: false,
                },
                nmi_status: NmiStatus::Inactive,
                irq_status: IrqStatus::Inactive,
                reset_status: ResetStatus::Active,
                current_interrupt_vector: None,
                pending_address_low: 0,
                pending_address_high: 0,
                computed_address: pc_at(0),
                address_carry: 0,
                operand: 0,
                step_formatting,
            }),
    {
        let zero = CpuAddress::zero();
        proof {
            lemma_view_injective(zero, pc_at(0));
        }
        Cpu {
            a: 0,
            x: 0,
            y: 0,
            stack_pointer: 0x00,
            program_counter: zero,
            status: Status::startup(),
            nmi_status: NmiStatus::Inactive,
            irq_status: IrqStatus::Inactive,
            reset_status: ResetStatus::Active,
            current_interrupt_vector: None,
            pending_address_low: 0,
            pending_address_high: 0,
            computed_address: zero,
            address_carry: 0,
            operand: 0,
            step_formatting,
        }
    }

    /// The RESET button: a reset becomes ready, and the interrupt statuses, the interrupt vector
    /// and the address carry are cleared. (The caller restarts the mode state.)
    pub fn reset(&mut self)
        ensures
            *final(self) == (Cpu {
                reset_status: ResetStatus::Ready,
                address_carry: 0,
                nmi_status: NmiStatus::Inactive,
                irq_status: IrqStatus::Inactive,
                current_interrupt_vector: None,
                ..*old(self)
            }),
    {
        self.reset_status = ResetStatus::Ready;
        self.address_carry = 0;
        self.nmi_status = NmiStatus::Inactive;
        self.irq_status = IrqStatus::Inactive;
        self.current_interrupt_vector = None;
    }

    pub fn accumulator(&self) -> (a: u8)
        ensures a == self.a,
    {
        self.a
    }

    pub fn x_index(&self) -> (x: u8)
        ensures x == self.x,
    {
        self.x
    }

    pub fn y_index(&self) -> (y: u8)
        ensures y == self.y,
    {
        self.y
    }

    pub fn stack_pointer(&self) -> (stack_pointer: u8)
        ensures stack_pointer == self.stack_pointer,
    {
        self.stack_pointer
    }

    pub fn status(&self) -> (status: Status)
        ensures status == self.status,
    {
        self.status
    }

    pub fn program_counter(&self) -> (program_counter: CpuAddress)
        ensures program_counter == self.program_counter,
    {
        self.program_counter
    }

    pub fn nmi_status(&self) -> (status: NmiStatus)
        ensures status == self.nmi_status,
    {
        self.nmi_status
    }

    pub fn irq_status(&self) -> (status: IrqStatus)
        ensures status == self.irq_status,
    {
        self.irq_status
    }

    pub fn reset_status(&self) -> (status: ResetStatus)
        ensures status == self.reset_status,
    {
        self.reset_status
    }

    pub fn nmi_pending(&self) -> (pending: bool)
        ensures pending == (self.nmi_status == NmiStatus::Pending),
    {
        self.nmi_status == NmiStatus::Pending
    }

    /// Moves the program counter by the signed operand within its page, and records which way
    /// the page was left.
    fn branch(&mut self)
        ensures *final(self) == spec_branched(*old(self)),
    {
        let operand = self.operand;
        let (program_counter, carry) = self.program_counter.offset_with_carry(operand as i8);
        assert((operand as i8) as int == if operand < 128 { operand as int } else { operand - 256 }) by (bit_vector);
        self.program_counter = program_counter;
        self.address_carry = carry;
        proof {
            let expected = spec_branched(*old(self));
            assert(expected.program_counter@ == program_counter@);
            lemma_view_injective(expected.program_counter, program_counter);
        }
    }

    /// Carries out the op code of the current instruction, on its operand and the registers.
    pub fn execute_op_code(&mut self, op_code: OpCode, access_mode: AccessMode) -> (outcome: OpCodeOutcome)
        requires
            is_executed_op_code(op_code),
        ensures
            (*final(self), outcome) == spec_execute(*old(self), op_code, access_mode),
    {
        if is_register_op_code(op_code) {
            *self = register_op(*self, op_code);
            OpCodeOutcome::Done
        } else if is_alu_op_code(op_code) {
            *self = alu_op(*self, op_code);
            OpCodeOutcome::Done
        } else if is_read_modify_write_op_code(op_code) {
            *self = read_modify_write_op(*self, op_code, access_mode);
            OpCodeOutcome::Done
        } else {
            match op_code {
                OpCode::JAM => OpCodeOutcome::Jammed,
                OpCode::BPL | OpCode::BMI | OpCode::BVC | OpCode::BVS | OpCode::BCC | OpCode::BCS | OpCode::BNE | OpCode::BEQ => {
                    let taken = match op_code {
                        OpCode::BPL => !self.status.negative,
                        OpCode::BMI => self.status.negative,
                        OpCode::BVC => !self.status.overflow,
                        OpCode::BVS => self.status.overflow,
                        OpCode::BCC => !self.status.carry,
                        OpCode::BCS => self.status.carry,
                        OpCode::BNE => !self.status.zero,
                        _ => self.status.zero,
                    };
                    if taken {
                        self.branch();
                        OpCodeOutcome::BranchTaken
                    } else {
                        OpCodeOutcome::Done
                    }
                },
                _ => OpCodeOutcome::Done,
            }
        }
    }
}

} // verus!
