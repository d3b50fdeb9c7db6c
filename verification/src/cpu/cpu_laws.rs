use vstd::prelude::*;

use crate::cpu::cpu::{
    is_alu_op, is_register_op, signed, spec_adc, spec_alu_op, spec_branched, spec_compare, spec_execute, spec_register_op, Cpu,
    OpCodeOutcome,
};
use crate::cpu::instruction::{AccessMode, OpCode};
use crate::cpu::status::Status;
use crate::memory::cpu_address::lemma_address_exists;

verus! {

/// N and Z describe the value, and the other flags are those of `before`.
pub open spec fn flags_describe(after: Status, before: Status, value: u8) -> bool {
    &&& after.negative == (value >= 128)
    &&& after.zero == (value == 0)
    &&& after.overflow == before.overflow
    &&& after.decimal == before.decimal
    &&& after.interrupts_disabled == before.interrupts_disabled
    &&& after.carry == before.carry
}

/// Only the accumulator and the flags may differ between the two CPUs.
pub open spec fn only_a_and_status_change(after: Cpu, before: Cpu) -> bool {
    after == (Cpu { a: after.a, status: after.status, ..before })
}

/// The carry as a number.
pub open spec fn carry_in(status: Status) -> int {
    if status.carry { 1 } else { 0 }
}

/// An op code that moves values between registers runs as `spec_register_op` says.
proof fn lemma_execute_register_op(cpu: Cpu, op_code: OpCode, access_mode: AccessMode)
    requires
        is_register_op(op_code),
    ensures
        spec_execute(cpu, op_code, access_mode) == (spec_register_op(cpu, op_code), OpCodeOutcome::Done),
{
}

/// An op code that combines the operand with the registers runs as `spec_alu_op` says.
proof fn lemma_execute_alu_op(cpu: Cpu, op_code: OpCode, access_mode: AccessMode)
    requires
        is_alu_op(op_code),
    ensures
        spec_execute(cpu, op_code, access_mode) == (spec_alu_op(cpu, op_code), OpCodeOutcome::Done),
{
}

/// The sum, carry and overflow of adding with carry, in ordinary arithmetic.
proof fn lemma_spec_adc(a: u8, value: u8, status: Status)
    ensures
        ({
            let (result, after) = spec_adc(a, value, status);
            let sum = a + value + carry_in(status);
            let signed_sum = signed(a) + signed(value) + carry_in(status);
            &&& result == sum % 256
            &&& after.carry == (sum > 255)
            &&& after.overflow == (signed_sum < -128 || signed_sum > 127)
            &&& after.negative == (result >= 128)
            &&& after.zero == (result == 0)
            &&& after.decimal == status.decimal
            &&& after.interrupts_disabled == status.interrupts_disabled
        }),
{
}

/// Comparing in ordinary arithmetic.
proof fn lemma_spec_compare(register: u8, value: u8, status: Status)
    ensures
        ({
            let after = spec_compare(register, value, status);
            &&& after.carry == (register >= value)
            &&& after.zero == (register == value)
            &&& after.negative == ((register - value + 256) % 256 >= 128)
            &&& after.overflow == status.overflow
        }),
{
}

/// Law of EOR: the accumulator becomes the old accumulator exclusive-or the operand, N and Z
/// describe it, and nothing else changes; so EOR of the accumulator with itself gives zero with
/// Z set, and EOR twice with the same operand gives the accumulator back.
#[verifier::spinoff_prover]
pub proof fn lemma_eor(cpu: Cpu, access_mode: AccessMode)
    ensures
        ({
            let (after, outcome) = spec_execute(cpu, OpCode::EOR, access_mode);
            &&& outcome == OpCodeOutcome::Done
            &&& after.a == cpu.a ^ cpu.operand
            &&& flags_describe(after.status, cpu.status, after.a)
            &&& only_a_and_status_change(after, cpu)
            &&& (cpu.operand == cpu.a ==> after.a == 0 && after.status.zero)
            &&& spec_execute(after, OpCode::EOR, access_mode).0.a == cpu.a
        }),
{
    let a = cpu.a;
    let o = cpu.operand;
    assert((a ^ o) ^ o == a && a ^ a == 0) by (bit_vector);
}

/// Law of ORA and AND: the accumulator becomes the old accumulator or'd, or and'd, with the
/// operand; N and Z describe it, and nothing else changes.
#[verifier::spinoff_prover]
pub proof fn lemma_ora_and(cpu: Cpu, access_mode: AccessMode)
    ensures
        ({
            let (after, outcome) = spec_execute(cpu, OpCode::ORA, access_mode);
            &&& outcome == OpCodeOutcome::Done
            &&& after.a == cpu.a | cpu.operand
            &&& flags_describe(after.status, cpu.status, after.a)
            &&& only_a_and_status_change(after, cpu)
        }),
        ({
            let (after, outcome) = spec_execute(cpu, OpCode::AND, access_mode);
            &&& outcome == OpCodeOutcome::Done
            &&& after.a == cpu.a & cpu.operand
            &&& flags_describe(after.status, cpu.status, after.a)
            &&& only_a_and_status_change(after, cpu)
        }),
{
}

/// Law of ADC: the accumulator becomes the sum of the accumulator, the operand and the carry,
/// modulo 256; the carry says whether the sum passed 255; overflow says whether the sum of the
/// two as signed bytes, plus the carry, left -128 to 127; N and Z describe the result.
#[verifier::spinoff_prover]
pub proof fn lemma_adc(cpu: Cpu, access_mode: AccessMode)
    ensures
        ({
            let (after, outcome) = spec_execute(cpu, OpCode::ADC, access_mode);
            let sum = cpu.a + cpu.operand + carry_in(cpu.status);
            let signed_sum = signed(cpu.a) + signed(cpu.operand) + carry_in(cpu.status);
            &&& outcome == OpCodeOutcome::Done
            &&& after.a == sum % 256
            &&& after.status.carry == (sum > 255)
            &&& after.status.overflow == (signed_sum < -128 || signed_sum > 127)
            &&& after.status.negative == (after.a >= 128)
            &&& after.status.zero == (after.a == 0)
            &&& after.status.decimal == cpu.status.decimal
            &&& after.status.interrupts_disabled == cpu.status.interrupts_disabled
            &&& only_a_and_status_change(after, cpu)
        }),
{
    lemma_execute_alu_op(cpu, OpCode::ADC, access_mode);
    lemma_spec_adc(cpu.a, cpu.operand, cpu.status);
}

/// Law of SBC: the accumulator becomes the accumulator minus the operand minus the borrow (the
/// carry clear), modulo 256; the carry says no borrow was needed; overflow says whether the
/// signed difference left -128 to 127; N and Z describe the result.
#[verifier::spinoff_prover]
pub proof fn lemma_sbc(cpu: Cpu, access_mode: AccessMode)
    ensures
        ({
            let (after, outcome) = spec_execute(cpu, OpCode::SBC, access_mode);
            let borrow = 1 - carry_in(cpu.status);
            let difference = cpu.a - cpu.operand - borrow;
            let signed_difference = signed(cpu.a) - signed(cpu.operand) - borrow;
            &&& outcome == OpCodeOutcome::Done
            &&& after.a == (difference + 256) % 256
            &&& after.status.carry == (difference >= 0)
            &&& after.status.overflow == (signed_difference < -128 || signed_difference > 127)
            &&& after.status.negative == (after.a >= 128)
            &&& after.status.zero == (after.a == 0)
            &&& only_a_and_status_change(after, cpu)
        }),
{
    let o = cpu.operand;
    assert(o ^ 0xFF == 255 - o) by (bit_vector);
    lemma_execute_alu_op(cpu, OpCode::SBC, access_mode);
    lemma_spec_adc(cpu.a, o ^ 0xFF, cpu.status);
}

/// Law of the comparisons: CMP, CPX and CPY change only the flags; the carry says the register
/// is not below the operand, Z that they are equal, and N is bit 7 of their difference.
#[verifier::spinoff_prover]
pub proof fn lemma_compare(cpu: Cpu, access_mode: AccessMode)
    ensures
        ({
            let after = spec_execute(cpu, OpCode::CMP, access_mode).0;
            &&& after == (Cpu { status: after.status, ..cpu })
            &&& after.status.carry == (cpu.a >= cpu.operand)
            &&& after.status.zero == (cpu.a == cpu.operand)
            &&& after.status.negative == ((cpu.a - cpu.operand + 256) % 256 >= 128)
            &&& after.status.overflow == cpu.status.overflow
        }),
        ({
            let after = spec_execute(cpu, OpCode::CPX, access_mode).0;
            &&& after == (Cpu { status: after.status, ..cpu })
            &&& after.status.carry == (cpu.x >= cpu.operand)
            &&& after.status.zero == (cpu.x == cpu.operand)
        }),
        ({
            let after = spec_execute(cpu, OpCode::CPY, access_mode).0;
            &&& after == (Cpu { status: after.status, ..cpu })
            &&& after.status.carry == (cpu.y >= cpu.operand)
            &&& after.status.zero == (cpu.y == cpu.operand)
        }),
{
    lemma_execute_alu_op(cpu, OpCode::CMP, access_mode);
    lemma_execute_alu_op(cpu, OpCode::CPX, access_mode);
    lemma_execute_alu_op(cpu, OpCode::CPY, access_mode);
    lemma_spec_compare(cpu.a, cpu.operand, cpu.status);
    lemma_spec_compare(cpu.x, cpu.operand, cpu.status);
    lemma_spec_compare(cpu.y, cpu.operand, cpu.status);
}

/// INX and DEX on X, INY and DEY on Y, as ordinary arithmetic modulo 256.
proof fn lemma_count_steps(cpu: Cpu, access_mode: AccessMode)
    ensures
        spec_execute(cpu, OpCode::INX, access_mode).0.x == (cpu.x + 1) % 256,
        spec_execute(cpu, OpCode::DEX, access_mode).0.x == (cpu.x + 255) % 256,
        spec_execute(cpu, OpCode::INY, access_mode).0.y == (cpu.y + 1) % 256,
        spec_execute(cpu, OpCode::DEY, access_mode).0.y == (cpu.y + 255) % 256,
        flags_describe(spec_execute(cpu, OpCode::INX, access_mode).0.status, cpu.status, ((cpu.x + 1) % 256) as u8),
        flags_describe(spec_execute(cpu, OpCode::DEX, access_mode).0.status, cpu.status, ((cpu.x + 255) % 256) as u8),
{
    lemma_execute_register_op(cpu, OpCode::INX, access_mode);
    lemma_execute_register_op(cpu, OpCode::DEX, access_mode);
    lemma_execute_register_op(cpu, OpCode::INY, access_mode);
    lemma_execute_register_op(cpu, OpCode::DEY, access_mode);
}

/// Adding one and taking one away, modulo 256, undo each other.
proof fn lemma_inverse_counts(value: u8)
    ensures
        ((value + 1) % 256 + 255) % 256 == value,
        ((value + 255) % 256 + 1) % 256 == value,
{
    if value == 255 {
    } else if value == 0 {
    } else {
    }
}

/// Law of the index counts: INX adds one to X and DEX takes one away, modulo 256, so each
/// undoes the other; likewise INY and DEY for Y; N and Z describe the new X.
#[verifier::spinoff_prover]
pub proof fn lemma_index_counts(cpu: Cpu, access_mode: AccessMode)
    ensures
        spec_execute(cpu, OpCode::INX, access_mode).0.x == (cpu.x + 1) % 256,
        spec_execute(cpu, OpCode::DEX, access_mode).0.x == (cpu.x + 255) % 256,
        spec_execute(spec_execute(cpu, OpCode::INX, access_mode).0, OpCode::DEX, access_mode).0.x == cpu.x,
        spec_execute(spec_execute(cpu, OpCode::DEX, access_mode).0, OpCode::INX, access_mode).0.x == cpu.x,
        spec_execute(cpu, OpCode::INY, access_mode).0.y == (cpu.y + 1) % 256,
        spec_execute(cpu, OpCode::DEY, access_mode).0.y == (cpu.y + 255) % 256,
        spec_execute(spec_execute(cpu, OpCode::INY, access_mode).0, OpCode::DEY, access_mode).0.y == cpu.y,
        flags_describe(spec_execute(cpu, OpCode::INX, access_mode).0.status, cpu.status, ((cpu.x + 1) % 256) as u8),
        flags_describe(spec_execute(cpu, OpCode::DEX, access_mode).0.status, cpu.status, ((cpu.x + 255) % 256) as u8),
{
    lemma_inverse_counts(cpu.x);
    lemma_inverse_counts(cpu.y);
    lemma_count_steps(cpu, access_mode);
    lemma_count_steps(spec_execute(cpu, OpCode::INX, access_mode).0, access_mode);
    lemma_count_steps(spec_execute(cpu, OpCode::DEX, access_mode).0, access_mode);
    lemma_count_steps(spec_execute(cpu, OpCode::INY, access_mode).0, access_mode);
}

/// Law of the shifts on the accumulator: ASL doubles it modulo 256 and carries out bit 7, LSR
/// halves it and carries out bit 0; ROL and ROR do the same and bring the old carry in at the
/// other end.
#[verifier::spinoff_prover]
pub proof fn lemma_shifts_on_accumulator(cpu: Cpu)
    ensures
        ({
            let after = spec_execute(cpu, OpCode::ASL, AccessMode::Imp).0;
            after.a == (cpu.a * 2) % 256 && after.status.carry == (cpu.a >= 128) && after.operand == cpu.operand
        }),
        ({
            let after = spec_execute(cpu, OpCode::LSR, AccessMode::Imp).0;
            after.a == cpu.a / 2 && after.status.carry == (cpu.a % 2 == 1) && !after.status.negative
        }),
        ({
            let after = spec_execute(cpu, OpCode::ROL, AccessMode::Imp).0;
            after.a == (cpu.a * 2) % 256 + carry_in(cpu.status) && after.status.carry == (cpu.a >= 128)
        }),
        ({
            let after = spec_execute(cpu, OpCode::ROR, AccessMode::Imp).0;
            after.a == cpu.a / 2 + 128 * carry_in(cpu.status) && after.status.carry == (cpu.a % 2 == 1)
        }),
{
}

/// Law of the shifts on memory: outside the implied mode they change the operand, not the
/// accumulator.
#[verifier::spinoff_prover]
pub proof fn lemma_shifts_on_operand(cpu: Cpu, access_mode: AccessMode)
    requires
        access_mode != AccessMode::Imp,
    ensures
        ({
            let after = spec_execute(cpu, OpCode::ASL, access_mode).0;
            after.operand == (cpu.operand * 2) % 256 && after.a == cpu.a && after.status.carry == (cpu.operand >= 128)
        }),
        ({
            let after = spec_execute(cpu, OpCode::LSR, access_mode).0;
            after.operand == cpu.operand / 2 && after.a == cpu.a && after.status.carry == (cpu.operand % 2 == 1)
        }),
        ({
            let after = spec_execute(cpu, OpCode::ROR, access_mode).0;
            after.operand == cpu.operand / 2 + 128 * carry_in(cpu.status) && after.a == cpu.a
        }),
        spec_execute(cpu, OpCode::INC, access_mode).0.operand == (cpu.operand + 1) % 256,
        spec_execute(cpu, OpCode::DEC, access_mode).0.operand == (cpu.operand + 255) % 256,
{
}

/// Law of the loads and transfers: each copies its source into its target, N and Z describe the
/// value (but for TXS), and no other register changes.
#[verifier::spinoff_prover]
pub proof fn lemma_loads_and_transfers(cpu: Cpu, access_mode: AccessMode)
    ensures
        spec_execute(cpu, OpCode::LDA, access_mode).0 == (Cpu { a: cpu.operand, status: spec_execute(cpu, OpCode::LDA, access_mode).0.status, ..cpu }),
        flags_describe(spec_execute(cpu, OpCode::LDA, access_mode).0.status, cpu.status, cpu.operand),
        spec_execute(cpu, OpCode::LDX, access_mode).0.x == cpu.operand,
        spec_execute(cpu, OpCode::LDY, access_mode).0.y == cpu.operand,
        spec_execute(cpu, OpCode::TAX, access_mode).0.x == cpu.a,
        spec_execute(cpu, OpCode::TAY, access_mode).0.y == cpu.a,
        spec_execute(cpu, OpCode::TXA, access_mode).0.a == cpu.x,
        spec_execute(cpu, OpCode::TYA, access_mode).0.a == cpu.y,
        spec_execute(cpu, OpCode::TSX, access_mode).0.x == cpu.stack_pointer,
        spec_execute(cpu, OpCode::TXS, access_mode).0 == (Cpu { stack_pointer: cpu.x, ..cpu }),
{
}

/// Law of the flag op codes: each sets or clears its one flag and changes nothing else.
#[verifier::spinoff_prover]
pub proof fn lemma_flag_op_codes(cpu: Cpu, access_mode: AccessMode)
    ensures
        spec_execute(cpu, OpCode::CLC, access_mode).0 == (Cpu { status: Status { carry: false, ..cpu.status }, ..cpu }),
        spec_execute(cpu, OpCode::SEC, access_mode).0 == (Cpu { status: Status { carry: true, ..cpu.status }, ..cpu }),
        spec_execute(cpu, OpCode::CLI, access_mode).0 == (Cpu { status: Status { interrupts_disabled: false, ..cpu.status }, ..cpu }),
        spec_execute(cpu, OpCode::SEI, access_mode).0 == (Cpu { status: Status { interrupts_disabled: true, ..cpu.status }, ..cpu }),
        spec_execute(cpu, OpCode::CLV, access_mode).0 == (Cpu { status: Status { overflow: false, ..cpu.status }, ..cpu }),
        spec_execute(cpu, OpCode::CLD, access_mode).0 == (Cpu { status: Status { decimal: false, ..cpu.status }, ..cpu }),
        spec_execute(cpu, OpCode::SED, access_mode).0 == (Cpu { status: Status { decimal: true, ..cpu.status }, ..cpu }),
{
}

/// Law of the branches: a branch is taken exactly when its flag is as it asks, and a branch not
/// taken changes nothing.
#[verifier::spinoff_prover]
pub proof fn lemma_branches(cpu: Cpu, access_mode: AccessMode)
    ensures
        (spec_execute(cpu, OpCode::BNE, access_mode).1 == OpCodeOutcome::BranchTaken) == !cpu.status.zero,
        (spec_execute(cpu, OpCode::BEQ, access_mode).1 == OpCodeOutcome::BranchTaken) == cpu.status.zero,
        (spec_execute(cpu, OpCode::BCC, access_mode).1 == OpCodeOutcome::BranchTaken) == !cpu.status.carry,
        (spec_execute(cpu, OpCode::BCS, access_mode).1 == OpCodeOutcome::BranchTaken) == cpu.status.carry,
        (spec_execute(cpu, OpCode::BPL, access_mode).1 == OpCodeOutcome::BranchTaken) == !cpu.status.negative,
        (spec_execute(cpu, OpCode::BMI, access_mode).1 == OpCodeOutcome::BranchTaken) == cpu.status.negative,
        (spec_execute(cpu, OpCode::BVC, access_mode).1 == OpCodeOutcome::BranchTaken) == !cpu.status.overflow,
        (spec_execute(cpu, OpCode::BVS, access_mode).1 == OpCodeOutcome::BranchTaken) == cpu.status.overflow,
        cpu.status.zero ==> spec_execute(cpu, OpCode::BNE, access_mode) == (cpu, OpCodeOutcome::Done),
        spec_execute(cpu, OpCode::JAM, access_mode) == (cpu, OpCodeOutcome::Jammed),
{
}

/// Law of BIT: only N, V and Z change: N and V become bits 7 and 6 of the operand, and Z says
/// whether the accumulator and the operand share no set bit.
#[verifier::spinoff_prover]
pub proof fn lemma_bit(cpu: Cpu, access_mode: AccessMode)
    ensures
        ({
            let after = spec_execute(cpu, OpCode::BIT, access_mode).0;
            &&& after == (Cpu { status: after.status, ..cpu })
            &&& after.status.negative == (cpu.operand >= 128)
            &&& after.status.overflow == (cpu.operand & 0x40 != 0)
            &&& after.status.zero == (cpu.operand & cpu.a == 0)
            &&& after.status.carry == cpu.status.carry
            &&& after.status.decimal == cpu.status.decimal
            &&& after.status.interrupts_disabled == cpu.status.interrupts_disabled
        }),
{
    lemma_execute_alu_op(cpu, OpCode::BIT, access_mode);
}

/// Law of LAX: the operand goes into both the accumulator and X.
#[verifier::spinoff_prover]
pub proof fn lemma_lax(cpu: Cpu, access_mode: AccessMode)
    ensures
        ({
            let after = spec_execute(cpu, OpCode::LAX, access_mode).0;
            &&& after.a == cpu.operand && after.x == cpu.operand
            &&& flags_describe(after.status, cpu.status, cpu.operand)
            &&& after == (Cpu { a: after.a, x: after.x, status: after.status, ..cpu })
        }),
{
    lemma_execute_alu_op(cpu, OpCode::LAX, access_mode);
}

/// Law of the undocumented read-modify-write op codes: SLO shifts the operand left and ors it
/// into the accumulator; SRE shifts it right and exclusive-ors it in; DCP takes one from it and
/// compares the accumulator with it; ISC adds one to it and subtracts it from the accumulator.
#[verifier::spinoff_prover]
pub proof fn lemma_undocumented_read_modify_write(cpu: Cpu, access_mode: AccessMode)
    ensures
        ({
            let after = spec_execute(cpu, OpCode::SLO, access_mode).0;
            after.operand == (cpu.operand * 2) % 256 && after.a == cpu.a | after.operand
                && after.status.carry == (cpu.operand >= 128)
        }),
        ({
            let after = spec_execute(cpu, OpCode::SRE, access_mode).0;
            after.operand == cpu.operand / 2 && after.a == cpu.a ^ after.operand
                && after.status.carry == (cpu.operand % 2 == 1)
        }),
        ({
            let after = spec_execute(cpu, OpCode::DCP, access_mode).0;
            after.operand == (cpu.operand + 255) % 256 && after.a == cpu.a
                && after.status.carry == (cpu.a >= after.operand) && after.status.zero == (cpu.a == after.operand)
        }),
        ({
            let after = spec_execute(cpu, OpCode::ISC, access_mode).0;
            let difference = cpu.a - (cpu.operand + 1) % 256 - (1 - carry_in(cpu.status));
            after.operand == (cpu.operand + 1) % 256 && after.a == (difference + 256) % 256
                && after.status.carry == (difference >= 0)
        }),
{
    let value = ((cpu.operand + 1) % 256) as u8;
    assert(value ^ 0xFF == 255 - value) by (bit_vector);
    lemma_spec_adc(cpu.a, value ^ 0xFF, cpu.status);
    lemma_spec_compare(cpu.a, ((cpu.operand + 255) % 256) as u8, cpu.status);
}

/// Law of a taken branch: the program counter moves by the operand, read as a signed byte,
/// within its page, and the address carry records the page that was left: 1 above, -1 below,
/// 0 none; nothing else changes.
#[verifier::spinoff_prover]
pub proof fn lemma_taken_branch(cpu: Cpu, access_mode: AccessMode)
    requires
        !cpu.status.zero,
    ensures
        ({
            let (after, outcome) = spec_execute(cpu, OpCode::BNE, access_mode);
            let pc = cpu.program_counter@;
            let low = pc % 256 + signed(cpu.operand);
            &&& outcome == OpCodeOutcome::BranchTaken
            &&& after.program_counter@ == pc - pc % 256 + (low + 256) % 256
            &&& after.address_carry == if low > 255 { 1i8 } else if low < 0 { -1i8 } else { 0i8 }
            &&& after == (Cpu { program_counter: after.program_counter, address_carry: after.address_carry, ..cpu })
        }),
{
    lemma_execute_branch(cpu, access_mode);
    lemma_branched(cpu);
}

/// A BNE with Z clear runs as `spec_branched` says.
proof fn lemma_execute_branch(cpu: Cpu, access_mode: AccessMode)
    requires
        !cpu.status.zero,
    ensures
        spec_execute(cpu, OpCode::BNE, access_mode) == (spec_branched(cpu), OpCodeOutcome::BranchTaken),
{
}

/// The branched program counter and carry in ordinary arithmetic.
proof fn lemma_branched(cpu: Cpu)
    ensures
        ({
            let after = spec_branched(cpu);
            let pc = cpu.program_counter@;
            let low = pc % 256 + signed(cpu.operand);
            &&& after.program_counter@ == pc - pc % 256 + (low + 256) % 256
            &&& after.address_carry == if low > 255 { 1i8 } else if low < 0 { -1i8 } else { 0i8 }
            &&& after == (Cpu { program_counter: after.program_counter, address_carry: after.address_carry, ..cpu })
        }),
{
    let pc = cpu.program_counter@;
    let low = pc % 256 + signed(cpu.operand);
    assert((pc / 256) * 256 == pc - pc % 256);
    assert(low % 256 == (low + 256) % 256);
    let target = (pc / 256) * 256 + low % 256;
    assert(0 <= target < 0x10000);
    lemma_address_exists(target as u16);
}

} // verus!
