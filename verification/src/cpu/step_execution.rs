use vstd::prelude::*;

use crate::cpu::cpu::{is_executed_op_code, pc_at, spec_execute, Cpu, IrqStatus, NmiStatus, OpCodeOutcome, ResetStatus};
use crate::cpu::cpu_mode::{CpuModeState, InterruptType};
use crate::cpu::instruction::{Instruction, OpCode};
use crate::cpu::status::Status;
use crate::cpu::step_action::{Field, StepAction};
use crate::memory::cpu_address::{lemma_address_exists, lemma_view_injective, CpuAddress};
use crate::memory::cpu_pinout::CpuPinout;

verus! {

/// What the CPU's mode state reports while a step's actions run.
#[derive(Clone, Copy, Debug)]
pub struct ModeFacts {
    /// A taken branch replaces the start of the next instruction.
    pub suppress_next_instruction_start: bool,
    /// An interrupt sequence is running, or is about to.
    pub interrupt_sequence_active: bool,
    /// The instruction being executed, if any.
    pub current_instruction: Option<Instruction>,
}

impl CpuModeState {
    /// What the mode state reports to the step actions.
    pub fn mode_facts(&self) -> (facts: ModeFacts)
        ensures
            facts == (ModeFacts {
                suppress_next_instruction_start: self@.spec_should_suppress_next_instruction_start(),
                interrupt_sequence_active: self@.spec_is_interrupt_sequence_active(),
                current_instruction: self@.current_instruction,
            }),
    {
        ModeFacts {
            suppress_next_instruction_start: self.should_suppress_next_instruction_start(),
            interrupt_sequence_active: self.is_interrupt_sequence_active(),
            current_instruction: self.current_instruction(),
        }
    }
}

/// What a step action leaves for the mode state and the DMA units to do.
#[derive(PartialEq, Eq, Clone, Copy, Debug, Structural)]
pub enum StepRequest {
    Nothing,
    /// Start the instruction with this code point.
    StartInstruction(u8),
    /// Start the sequence of this interrupt in place of the next instruction.
    StartInterruptSequence(InterruptType),
    /// The interrupt vector was chosen (or none was).
    InterruptVectorSet(Option<InterruptType>),
    /// Insert the step that fixes an address's page.
    Oops,
    /// Insert the step that fixes the page of a taken branch.
    BranchOops,
    /// A branch was taken.
    BranchTaken,
    /// The CPU jams.
    Jam,
    /// Move the OAM DMA to its next address.
    IncrementOamDmaAddress,
    /// Hand the value read to the DMC as its sample buffer.
    SetDmcSampleBuffer(u8),
}

/// The op code of the current instruction, where there is one that the execute step carries out.
pub open spec fn executable_instruction(mode: ModeFacts) -> bool {
    match mode.current_instruction {
        Some(instruction) => is_executed_op_code(instruction.template.op_code),
        None => false,
    }
}

/// The interrupt whose sequence replaces the next instruction start: a ready RESET, then an
/// active NMI, then an active IRQ while no NMI is under way.
pub open spec fn replacing_interrupt(cpu: Cpu) -> Option<InterruptType> {
    if cpu.reset_status == ResetStatus::Ready {
        Some(InterruptType::Reset)
    } else if cpu.nmi_status == NmiStatus::Active {
        Some(InterruptType::Nmi)
    } else if cpu.irq_status == IrqStatus::Active && cpu.nmi_status == NmiStatus::Inactive {
        Some(InterruptType::Irq)
    } else {
        None
    }
}

/// The interrupt vector to use: RESET, NMI or IRQ by which is under way, in that order, else IRQ
/// for a BRK instruction, else none.
pub open spec fn chosen_interrupt_vector(cpu: Cpu, current: Option<Instruction>) -> Option<InterruptType> {
    if cpu.reset_status != ResetStatus::Inactive {
        Some(InterruptType::Reset)
    } else if cpu.nmi_status != NmiStatus::Inactive {
        Some(InterruptType::Nmi)
    } else if cpu.irq_status != IrqStatus::Inactive {
        Some(InterruptType::Irq)
    } else if current is Some && current->0.template.op_code == OpCode::BRK {
        Some(InterruptType::Irq)
    } else {
        None
    }
}

/// The step actions that steer the flow of instructions and interrupts.
pub open spec fn is_flow_action(action: StepAction) -> bool {
    match action {
        StepAction::StartNextInstruction | StepAction::SetInterruptVector | StepAction::ClearInterruptVector
        | StepAction::PollInterrupts | StepAction::DisableInterrupts | StepAction::MaybeInsertOopsStep
        | StepAction::MaybeInsertBranchOopsStep => true,
        _ => false,
    }
}

/// The effect of a flow action on the CPU and its pins, and what it asks of the mode state.
pub open spec fn spec_flow_action(cpu: Cpu, pinout: CpuPinout, mode: ModeFacts, action: StepAction, value: u8)
    -> (Cpu, CpuPinout, StepRequest)
{
    match action {
        StepAction::StartNextInstruction => if mode.suppress_next_instruction_start {
            (cpu, pinout, StepRequest::Nothing)
        } else {
            match replacing_interrupt(cpu) {
                Some(interrupt) => (
                    Cpu {
                        reset_status: if interrupt == InterruptType::Reset { ResetStatus::Active } else { cpu.reset_status },
                        ..cpu
                    },
                    CpuPinout { data_bus: 0, ..pinout },
                    StepRequest::StartInterruptSequence(interrupt),
                ),
                None => (cpu, pinout, StepRequest::StartInstruction(value)),
            }
        },
        StepAction::SetInterruptVector => {
            let vector = chosen_interrupt_vector(cpu, mode.current_instruction);
            (
                Cpu {
                    current_interrupt_vector: vector,
                    nmi_status: NmiStatus::Inactive,
                    irq_status: IrqStatus::Inactive,
                    reset_status: ResetStatus::Inactive,
                    ..cpu
                },
                pinout,
                StepRequest::InterruptVectorSet(vector),
            )
        },
        StepAction::ClearInterruptVector => (Cpu { current_interrupt_vector: None, ..cpu }, pinout, StepRequest::Nothing),
        StepAction::PollInterrupts => if cpu.nmi_status == NmiStatus::Ready {
            (Cpu { nmi_status: NmiStatus::Active, ..cpu }, pinout, StepRequest::Nothing)
        } else if cpu.irq_status == IrqStatus::Ready && !cpu.status.interrupts_disabled {
            (Cpu { irq_status: IrqStatus::Active, ..cpu }, pinout, StepRequest::Nothing)
        } else {
            (cpu, pinout, StepRequest::Nothing)
        },
        StepAction::DisableInterrupts => (
            Cpu { status: Status { interrupts_disabled: true, ..cpu.status }, ..cpu },
            pinout,
            StepRequest::Nothing,
        ),
        StepAction::MaybeInsertOopsStep => (cpu, pinout, if cpu.address_carry != 0 { StepRequest::Oops } else { StepRequest::Nothing }),
        _ => (cpu, pinout, if cpu.address_carry != 0 { StepRequest::BranchOops } else { StepRequest::Nothing }),
    }
}

/// The address with an amount added to its low byte, wrapping within the page.
pub open spec fn low_offset(address: CpuAddress, value: u8) -> CpuAddress {
    pc_at((address@ / 256) * 256 + (address@ % 256 + value) % 256)
}

/// The effect on the CPU of a step action that moves the program counter, an address or the
/// stack pointer.
pub open spec fn spec_address_action(cpu: Cpu, address_bus: CpuAddress, mode: ModeFacts, action: StepAction) -> Cpu {
    match action {
        StepAction::IncrementPC => if !mode.suppress_next_instruction_start && !mode.interrupt_sequence_active {
            Cpu { program_counter: pc_at((cpu.program_counter@ + 1) % 0x10000), ..cpu }
        } else {
            cpu
        },
        StepAction::IncrementAddress => Cpu { computed_address: pc_at((address_bus@ + 1) % 0x10000), ..cpu },
        StepAction::IncrementAddressLow => Cpu { computed_address: low_offset(address_bus, 1), ..cpu },
        StepAction::XOffsetAddress => Cpu { computed_address: low_offset(address_bus, cpu.x), ..cpu },
        StepAction::YOffsetAddress => Cpu { computed_address: low_offset(address_bus, cpu.y), ..cpu },
        StepAction::XOffsetPendingAddressLow => Cpu {
            pending_address_low: ((cpu.pending_address_low + cpu.x) % 256) as u8,
            address_carry: if cpu.pending_address_low + cpu.x > 255 { 1 } else { cpu.address_carry },
            ..cpu
        },
        StepAction::YOffsetPendingAddressLow => Cpu {
            pending_address_low: ((cpu.pending_address_low + cpu.y) % 256) as u8,
            address_carry: if cpu.pending_address_low + cpu.y > 255 { 1 } else { cpu.address_carry },
            ..cpu
        },
        StepAction::CopyAddressToPC => Cpu { program_counter: address_bus, ..cpu },
        StepAction::AddCarryToAddress => Cpu {
            computed_address: pc_at((address_bus@ + cpu.address_carry * 256) % 0x10000),
            address_carry: 0,
            ..cpu
        },
        StepAction::AddCarryToPC => if cpu.address_carry != 0 {
            Cpu {
                program_counter: pc_at((cpu.program_counter@ + cpu.address_carry * 256) % 0x10000),
                address_carry: 0,
                ..cpu
            }
        } else {
            cpu
        },
        StepAction::IncrementStackPointer => Cpu { stack_pointer: ((cpu.stack_pointer + 1) % 256) as u8, ..cpu },
        StepAction::DecrementStackPointer => Cpu { stack_pointer: ((cpu.stack_pointer + 255) % 256) as u8, ..cpu },
        _ => cpu,
    }
}

/// The request that an op code's outcome makes of the mode state.
pub open spec fn outcome_request(outcome: OpCodeOutcome) -> StepRequest {
    match outcome {
        OpCodeOutcome::Done => StepRequest::Nothing,
        OpCodeOutcome::BranchTaken => StepRequest::BranchTaken,
        OpCodeOutcome::Jammed => StepRequest::Jam,
    }
}

/// The effect of a step action on the CPU and its pins, given the address on the bus, what the
/// mode state reports and the value that the step's bus access moved; and what it asks of the
/// mode state and the DMA units.
pub open spec fn spec_step_action(
    cpu: Cpu,
    pinout: CpuPinout,
    address_bus: CpuAddress,
    mode: ModeFacts,
    action: StepAction,
    value: u8,
) -> (Cpu, CpuPinout, StepRequest) {
    if is_flow_action(action) {
        spec_flow_action(cpu, pinout, mode, action, value)
    } else if action == StepAction::ExecuteOpCode {
        let instruction = mode.current_instruction->0;
        let (executed, outcome) = spec_execute(cpu, instruction.template.op_code, instruction.template.access_mode);
        (executed, pinout, outcome_request(outcome))
    } else if action == StepAction::IncrementOamDmaAddress {
        (cpu, pinout, StepRequest::IncrementOamDmaAddress)
    } else if action == StepAction::SetDmcSampleBuffer {
        (cpu, pinout, StepRequest::SetDmcSampleBuffer(value))
    } else {
        (spec_address_action(cpu, address_bus, mode, action), pinout, StepRequest::Nothing)
    }
}

/// `pc_at` gives an address of the value asked for.
proof fn lemma_pc_at(value: u16)
    ensures
        pc_at(value as int)@ == value,
{
    lemma_address_exists(value);
}

/// A byte moved down by one and up by one, modulo 256: the two differ, and each step undoes the
/// other.
proof fn lemma_byte_steps(value: u8)
    ensures
        ((value + 255) % 256) as u8 != ((value + 1) % 256) as u8,
        ((((value + 255) % 256) as u8 + 1) % 256) as u8 == value,
        ((((value + 1) % 256) as u8 + 255) % 256) as u8 == value,
{
    if value == 255 {
    } else if value == 0 {
    } else {
    }
}

/// Law of the stack pointer actions: DecrementStackPointer moves the stack pointer down by one
/// and IncrementStackPointer up by one, modulo 256, so the two never agree; neither touches
/// anything else.
#[verifier::spinoff_prover]
pub proof fn lemma_stack_pointer_actions(cpu: Cpu, pinout: CpuPinout, address_bus: CpuAddress, mode: ModeFacts, value: u8)
    ensures
        ({
            let (down, down_pinout, down_request) =
                spec_step_action(cpu, pinout, address_bus, mode, StepAction::DecrementStackPointer, value);
            let (up, up_pinout, up_request) =
                spec_step_action(cpu, pinout, address_bus, mode, StepAction::IncrementStackPointer, value);
            &&& down.stack_pointer == (cpu.stack_pointer + 255) % 256
            &&& up.stack_pointer == (cpu.stack_pointer + 1) % 256
            &&& down.stack_pointer != up.stack_pointer
            &&& down == (Cpu { stack_pointer: down.stack_pointer, ..cpu })
            &&& up == (Cpu { stack_pointer: up.stack_pointer, ..cpu })
            &&& down_pinout == pinout && up_pinout == pinout
            &&& down_request == StepRequest::Nothing && up_request == StepRequest::Nothing
        }),
{
    lemma_byte_steps(cpu.stack_pointer);
}

/// Law of the stack pointer actions taken together: IncrementStackPointer undoes
/// DecrementStackPointer, and the other way round.
#[verifier::spinoff_prover]
pub proof fn lemma_stack_pointer_round_trip(cpu: Cpu, pinout: CpuPinout, address_bus: CpuAddress, mode: ModeFacts, value: u8)
    ensures
        spec_step_action(
            spec_step_action(cpu, pinout, address_bus, mode, StepAction::DecrementStackPointer, value).0,
            pinout, address_bus, mode, StepAction::IncrementStackPointer, value,
        ).0.stack_pointer == cpu.stack_pointer,
        spec_step_action(
            spec_step_action(cpu, pinout, address_bus, mode, StepAction::IncrementStackPointer, value).0,
            pinout, address_bus, mode, StepAction::DecrementStackPointer, value,
        ).0.stack_pointer == cpu.stack_pointer,
{
    lemma_byte_steps(cpu.stack_pointer);
    lemma_stack_pointer_actions(cpu, pinout, address_bus, mode, value);
    let down = spec_step_action(cpu, pinout, address_bus, mode, StepAction::DecrementStackPointer, value).0;
    let up = spec_step_action(cpu, pinout, address_bus, mode, StepAction::IncrementStackPointer, value).0;
    lemma_stack_pointer_actions(down, pinout, address_bus, mode, value);
    lemma_stack_pointer_actions(up, pinout, address_bus, mode, value);
}

/// Law of the pending address offsets: XOffsetPendingAddressLow adds X to the pending low byte
/// and YOffsetPendingAddressLow adds Y, modulo 256; a sum past 255 sets the address carry to 1,
/// any other leaves it as it was.
#[verifier::spinoff_prover]
pub proof fn lemma_pending_address_offsets(cpu: Cpu, pinout: CpuPinout, address_bus: CpuAddress, mode: ModeFacts, value: u8)
    ensures
        ({
            let after = spec_step_action(cpu, pinout, address_bus, mode, StepAction::XOffsetPendingAddressLow, value).0;
            &&& after.pending_address_low == (cpu.pending_address_low + cpu.x) % 256
            &&& after.address_carry == if cpu.pending_address_low + cpu.x > 255 { 1 } else { cpu.address_carry }
            &&& after == (Cpu { pending_address_low: after.pending_address_low, address_carry: after.address_carry, ..cpu })
        }),
        ({
            let after = spec_step_action(cpu, pinout, address_bus, mode, StepAction::YOffsetPendingAddressLow, value).0;
            &&& after.pending_address_low == (cpu.pending_address_low + cpu.y) % 256
            &&& after.address_carry == if cpu.pending_address_low + cpu.y > 255 { 1 } else { cpu.address_carry }
            &&& after == (Cpu { pending_address_low: after.pending_address_low, address_carry: after.address_carry, ..cpu })
        }),
{
}

/// Law of the program counter actions: IncrementPC moves the program counter up by one, wrapping
/// at 0x10000, unless a taken branch or an interrupt sequence holds it; CopyAddressToPC takes
/// the address on the bus; AddCarryToPC moves the page by the carry and clears it, or does
/// nothing without a carry.
#[verifier::spinoff_prover]
pub proof fn lemma_program_counter_actions(cpu: Cpu, pinout: CpuPinout, address_bus: CpuAddress, mode: ModeFacts, value: u8)
    ensures
        ({
            let after = spec_step_action(cpu, pinout, address_bus, mode, StepAction::IncrementPC, value).0;
            if mode.suppress_next_instruction_start || mode.interrupt_sequence_active {
                after == cpu
            } else {
                after.program_counter@ == (cpu.program_counter@ + 1) % 0x10000
                    && after == (Cpu { program_counter: after.program_counter, ..cpu })
            }
        }),
        spec_step_action(cpu, pinout, address_bus, mode, StepAction::CopyAddressToPC, value).0
            == (Cpu { program_counter: address_bus, ..cpu }),
        ({
            let after = spec_step_action(cpu, pinout, address_bus, mode, StepAction::AddCarryToPC, value).0;
            if cpu.address_carry == 0 {
                after == cpu
            } else {
                after.program_counter@ == (cpu.program_counter@ + cpu.address_carry * 256) % 0x10000
                    && after.address_carry == 0
            }
        }),
{
    lemma_pc_at(((cpu.program_counter@ + 1) % 0x10000) as u16);
    lemma_pc_at(((cpu.program_counter@ + cpu.address_carry * 256) % 0x10000) as u16);
}

/// Law of interrupt polling and vectors: polling activates a ready NMI, or else a ready IRQ
/// while interrupts are enabled; the vector chosen is RESET, NMI or IRQ by which is under way, in
/// that order, else IRQ for a BRK, and choosing it clears all three statuses.
#[verifier::spinoff_prover]
pub proof fn lemma_interrupt_actions(cpu: Cpu, pinout: CpuPinout, address_bus: CpuAddress, mode: ModeFacts, value: u8)
    ensures
        ({
            let after = spec_step_action(cpu, pinout, address_bus, mode, StepAction::PollInterrupts, value).0;
            &&& after.nmi_status == if cpu.nmi_status == NmiStatus::Ready { NmiStatus::Active } else { cpu.nmi_status }
            &&& after.irq_status == if cpu.nmi_status != NmiStatus::Ready && cpu.irq_status == IrqStatus::Ready
                && !cpu.status.interrupts_disabled { IrqStatus::Active } else { cpu.irq_status }
        }),
        ({
            let (after, _, request) = spec_step_action(cpu, pinout, address_bus, mode, StepAction::SetInterruptVector, value);
            &&& cpu.reset_status != ResetStatus::Inactive ==> after.current_interrupt_vector == Some(InterruptType::Reset)
            &&& cpu.reset_status == ResetStatus::Inactive && cpu.nmi_status != NmiStatus::Inactive
                ==> after.current_interrupt_vector == Some(InterruptType::Nmi)
            &&& cpu.reset_status == ResetStatus::Inactive && cpu.nmi_status == NmiStatus::Inactive
                && cpu.irq_status != IrqStatus::Inactive ==> after.current_interrupt_vector == Some(InterruptType::Irq)
            &&& request == StepRequest::InterruptVectorSet(after.current_interrupt_vector)
            &&& after.nmi_status == NmiStatus::Inactive
            &&& after.irq_status == IrqStatus::Inactive
            &&& after.reset_status == ResetStatus::Inactive
        }),
{
}


/// An amount added to an address's low byte, within its page, in ordinary arithmetic.
proof fn lemma_low_offset(address: CpuAddress, value: u8)
    ensures
        low_offset(address, value)@ == address@ - address@ % 256 + (address@ % 256 + value) % 256,
{
    let bus = address@ as int;
    let page = bus / 256;
    assert(page * 256 == bus - bus % 256);
    assert(0 <= page * 256 <= 0xFF00);
    let target = page * 256 + (bus % 256 + value) % 256;
    assert(0 <= target < 0x10000);
    lemma_pc_at(target as u16);
}

/// Law of the indexed address actions: XOffsetAddress and YOffsetAddress add X or Y to the low
/// byte of the address on the bus, within its page, and set only the computed address.
#[verifier::spinoff_prover]
pub proof fn lemma_indexed_address_actions(cpu: Cpu, pinout: CpuPinout, address_bus: CpuAddress, mode: ModeFacts, value: u8)
    ensures
        ({
            let bus = address_bus@;
            let x_after = spec_step_action(cpu, pinout, address_bus, mode, StepAction::XOffsetAddress, value).0;
            let y_after = spec_step_action(cpu, pinout, address_bus, mode, StepAction::YOffsetAddress, value).0;
            &&& x_after.computed_address@ == bus - bus % 256 + (bus % 256 + cpu.x) % 256
            &&& x_after == (Cpu { computed_address: x_after.computed_address, ..cpu })
            &&& y_after.computed_address@ == bus - bus % 256 + (bus % 256 + cpu.y) % 256
            &&& y_after == (Cpu { computed_address: y_after.computed_address, ..cpu })
        }),
{
    lemma_low_offset(address_bus, cpu.x);
    lemma_low_offset(address_bus, cpu.y);
}

/// Law of the address increments: IncrementAddressLow adds one to the address on the bus within
/// its page, IncrementAddress adds one wrapping at 0x10000; both set only the computed address.
#[verifier::spinoff_prover]
pub proof fn lemma_address_increments(cpu: Cpu, pinout: CpuPinout, address_bus: CpuAddress, mode: ModeFacts, value: u8)
    ensures
        ({
            let bus = address_bus@;
            let low_after = spec_step_action(cpu, pinout, address_bus, mode, StepAction::IncrementAddressLow, value).0;
            let next_after = spec_step_action(cpu, pinout, address_bus, mode, StepAction::IncrementAddress, value).0;
            &&& low_after.computed_address@ == bus - bus % 256 + (bus % 256 + 1) % 256
            &&& low_after == (Cpu { computed_address: low_after.computed_address, ..cpu })
            &&& next_after.computed_address@ == (bus + 1) % 0x10000
            &&& next_after == (Cpu { computed_address: next_after.computed_address, ..cpu })
        }),
{
    lemma_low_offset(address_bus, 1);
    lemma_pc_at(((address_bus@ + 1) % 0x10000) as u16);
}

/// Law of AddCarryToAddress: the address on the bus moves by the carry's page, wrapping at
/// 0x10000, into the computed address, and the carry is cleared.
#[verifier::spinoff_prover]
pub proof fn lemma_add_carry_to_address(cpu: Cpu, pinout: CpuPinout, address_bus: CpuAddress, mode: ModeFacts, value: u8)
    ensures
        ({
            let after = spec_step_action(cpu, pinout, address_bus, mode, StepAction::AddCarryToAddress, value).0;
            &&& after.computed_address@ == (address_bus@ + cpu.address_carry * 256) % 0x10000
            &&& after.address_carry == 0
            &&& after == (Cpu { computed_address: after.computed_address, address_carry: 0, ..cpu })
        }),
{
    lemma_pc_at(((address_bus@ + cpu.address_carry * 256) % 0x10000) as u16);
}

/// Law of starting the next instruction: unless a taken branch replaces it, a ready RESET, then
/// an active NMI, then an active IRQ while no NMI is under way, start their sequence in its place
/// and clear the data bus (a RESET becomes active); otherwise the value read starts as an
/// instruction and nothing else changes.
#[verifier::spinoff_prover]
pub proof fn lemma_start_next_instruction(cpu: Cpu, pinout: CpuPinout, address_bus: CpuAddress, mode: ModeFacts, value: u8)
    ensures
        ({
            let (after, after_pinout, request) =
                spec_step_action(cpu, pinout, address_bus, mode, StepAction::StartNextInstruction, value);
            &&& mode.suppress_next_instruction_start ==> after == cpu && after_pinout == pinout && request == StepRequest::Nothing
            &&& !mode.suppress_next_instruction_start && cpu.reset_status == ResetStatus::Ready
                ==> request == StepRequest::StartInterruptSequence(InterruptType::Reset)
                    && after.reset_status == ResetStatus::Active && after_pinout.data_bus == 0
            &&& !mode.suppress_next_instruction_start && cpu.reset_status != ResetStatus::Ready
                && cpu.nmi_status == NmiStatus::Active
                ==> request == StepRequest::StartInterruptSequence(InterruptType::Nmi) && after == cpu
                    && after_pinout.data_bus == 0
            &&& !mode.suppress_next_instruction_start && cpu.reset_status != ResetStatus::Ready
                && cpu.nmi_status == NmiStatus::Inactive && cpu.irq_status == IrqStatus::Active
                ==> request == StepRequest::StartInterruptSequence(InterruptType::Irq) && after == cpu
            &&& !mode.suppress_next_instruction_start && cpu.reset_status != ResetStatus::Ready
                && cpu.nmi_status != NmiStatus::Active && cpu.irq_status != IrqStatus::Active
                ==> request == StepRequest::StartInstruction(value) && after == cpu && after_pinout == pinout
        }),
{
}

fn flow_action(cpu: Cpu, pinout: CpuPinout, mode: ModeFacts, action: StepAction, value: u8)
    -> (result: (Cpu, CpuPinout, StepRequest))
    requires
        is_flow_action(action),
    ensures
        result == spec_flow_action(cpu, pinout, mode, action, value),
{
    match action {
        StepAction::StartNextInstruction => {
            if mode.suppress_next_instruction_start {
                (cpu, pinout, StepRequest::Nothing)
            } else if cpu.reset_status == ResetStatus::Ready {
                (
                    Cpu { reset_status: ResetStatus::Active, ..cpu },
                    CpuPinout { data_bus: 0x00, ..pinout },
                    StepRequest::StartInterruptSequence(InterruptType::Reset),
                )
            } else if cpu.nmi_status == NmiStatus::Active {
                (cpu, CpuPinout { data_bus: 0x00, ..pinout }, StepRequest::StartInterruptSequence(InterruptType::Nmi))
            } else if cpu.irq_status == IrqStatus::Active && cpu.nmi_status == NmiStatus::Inactive {
                (cpu, CpuPinout { data_bus: 0x00, ..pinout }, StepRequest::StartInterruptSequence(InterruptType::Irq))
            } else {
                (cpu, pinout, StepRequest::StartInstruction(value))
            }
        },
        StepAction::SetInterruptVector => {
            let is_brk = match mode.current_instruction {
                Some(instruction) => instruction.template.op_code == OpCode::BRK,
                None => false,
            };
            let vector = if cpu.reset_status != ResetStatus::Inactive {
                Some(InterruptType::Reset)
            } else if cpu.nmi_status != NmiStatus::Inactive {
                Some(InterruptType::Nmi)
            } else if cpu.irq_status != IrqStatus::Inactive {
                Some(InterruptType::Irq)
            } else if is_brk {
                Some(InterruptType::Irq)
            } else {
                None
            };
            (
                Cpu {
                    current_interrupt_vector: vector,
                    nmi_status: NmiStatus::Inactive,
                    irq_status: IrqStatus::Inactive,
                    reset_status: ResetStatus::Inactive,
                    ..cpu
                },
                pinout,
                StepRequest::InterruptVectorSet(vector),
            )
        },
        StepAction::ClearInterruptVector => (Cpu { current_interrupt_vector: None, ..cpu }, pinout, StepRequest::Nothing),
        StepAction::PollInterrupts => {
            if cpu.nmi_status == NmiStatus::Ready {
                (Cpu { nmi_status: NmiStatus::Active, ..cpu }, pinout, StepRequest::Nothing)
            } else if cpu.irq_status == IrqStatus::Ready && !cpu.status.interrupts_disabled {
                (Cpu { irq_status: IrqStatus::Active, ..cpu }, pinout, StepRequest::Nothing)
            } else {
                (cpu, pinout, StepRequest::Nothing)
            }
        },
        StepAction::DisableInterrupts => {
            let mut status = cpu.status;
            status.interrupts_disabled = true;
            (Cpu { status, ..cpu }, pinout, StepRequest::Nothing)
        },
        StepAction::MaybeInsertOopsStep => {
            let request = if cpu.address_carry != 0 { StepRequest::Oops } else { StepRequest::Nothing };
            (cpu, pinout, request)
        },
        _ => {
            let request = if cpu.address_carry != 0 { StepRequest::BranchOops } else { StepRequest::Nothing };
            (cpu, pinout, request)
        },
    }
}

/// Moving the program counter by one, or computing an address from the one on the bus.
#[verifier::spinoff_prover]
fn address_step(cpu: Cpu, address_bus: CpuAddress, mode: ModeFacts, action: StepAction) -> (result: Cpu)
    requires
        action == StepAction::IncrementPC || action == StepAction::IncrementAddress
            || action == StepAction::IncrementAddressLow || action == StepAction::XOffsetAddress
            || action == StepAction::YOffsetAddress,
    ensures
        result == spec_address_action(cpu, address_bus, mode, action),
{
    let mut cpu = cpu;
    let ghost old_cpu = cpu;
    match action {
        StepAction::IncrementPC => {
            if !mode.suppress_next_instruction_start && !mode.interrupt_sequence_active {
                cpu.program_counter.inc();
                proof { lemma_view_injective(cpu.program_counter, pc_at((old_cpu.program_counter@ + 1) % 0x10000)); }
            }
        },
        StepAction::IncrementAddress => {
            let mut address = address_bus;
            cpu.computed_address = address.inc();
            proof { lemma_view_injective(cpu.computed_address, pc_at((address_bus@ + 1) % 0x10000)); }
        },
        StepAction::IncrementAddressLow => {
            cpu.computed_address = address_bus.offset_low(1).0;
            proof { lemma_view_injective(cpu.computed_address, low_offset(address_bus, 1)); }
        },
        StepAction::XOffsetAddress => {
            cpu.computed_address = address_bus.offset_low(cpu.x).0;
            proof { lemma_view_injective(cpu.computed_address, low_offset(address_bus, old_cpu.x)); }
        },
        StepAction::YOffsetAddress => {
            cpu.computed_address = address_bus.offset_low(cpu.y).0;
            proof { lemma_view_injective(cpu.computed_address, low_offset(address_bus, old_cpu.y)); }
        },
        _ => {},
    }
    cpu
}

/// Offsetting the pending address, carrying into a page, or moving the stack pointer.
#[verifier::spinoff_prover]
#[verifier::rlimit(30)]
fn carry_step(cpu: Cpu, address_bus: CpuAddress, mode: ModeFacts, action: StepAction) -> (result: Cpu)
    requires
        !(action == StepAction::IncrementPC || action == StepAction::IncrementAddress
            || action == StepAction::IncrementAddressLow || action == StepAction::XOffsetAddress
            || action == StepAction::YOffsetAddress),
    ensures
        result == spec_address_action(cpu, address_bus, mode, action),
{
    let mut cpu = cpu;
    let ghost old_cpu = cpu;
    match action {
        StepAction::XOffsetPendingAddressLow => {
            let carry = cpu.pending_address_low as u16 + cpu.x as u16 > 0xFF;
            cpu.pending_address_low = cpu.pending_address_low.wrapping_add(cpu.x);
            if carry {
                cpu.address_carry = 1;
            }
        },
        StepAction::YOffsetPendingAddressLow => {
            let carry = cpu.pending_address_low as u16 + cpu.y as u16 > 0xFF;
            cpu.pending_address_low = cpu.pending_address_low.wrapping_add(cpu.y);
            if carry {
                cpu.address_carry = 1;
            }
        },
        StepAction::CopyAddressToPC => cpu.program_counter = address_bus,
        StepAction::AddCarryToAddress => {
            cpu.computed_address = address_bus.offset_high(cpu.address_carry);
            cpu.address_carry = 0;
            proof {
                lemma_view_injective(
                    cpu.computed_address,
                    pc_at((address_bus@ + old_cpu.address_carry * 256) % 0x10000),
                );
            }
        },
        StepAction::AddCarryToPC => {
            if cpu.address_carry != 0 {
                cpu.program_counter = cpu.program_counter.offset_high(cpu.address_carry);
                cpu.address_carry = 0;
                proof {
                    lemma_view_injective(
                        cpu.program_counter,
                        pc_at((old_cpu.program_counter@ + old_cpu.address_carry * 256) % 0x10000),
                    );
                }
            }
        },
        StepAction::IncrementStackPointer => cpu.stack_pointer = cpu.stack_pointer.wrapping_add(1),
        StepAction::DecrementStackPointer => cpu.stack_pointer = cpu.stack_pointer.wrapping_sub(1),
        _ => {},
    }
    cpu
}

fn address_action(cpu: Cpu, address_bus: CpuAddress, mode: ModeFacts, action: StepAction) -> (result: Cpu)
    ensures
        result == spec_address_action(cpu, address_bus, mode, action),
{
    match action {
        StepAction::IncrementPC | StepAction::IncrementAddress | StepAction::IncrementAddressLow
        | StepAction::XOffsetAddress | StepAction::YOffsetAddress => address_step(cpu, address_bus, mode, action),
        _ => carry_step(cpu, address_bus, mode, action),
    }
}

fn outcome_to_request(outcome: OpCodeOutcome) -> (request: StepRequest)
    ensures
        request == outcome_request(outcome),
{
    match outcome {
        OpCodeOutcome::Done => StepRequest::Nothing,
        OpCodeOutcome::BranchTaken => StepRequest::BranchTaken,
        OpCodeOutcome::Jammed => StepRequest::Jam,
    }
}

impl Cpu {
    /// At the start of a cycle, a pending NMI becomes ready, or else a pending IRQ does while
    /// interrupts are enabled.
    pub fn ready_pending_interrupt(&mut self)
        ensures
            *final(self) == if old(self).nmi_status == NmiStatus::Pending {
                Cpu { nmi_status: NmiStatus::Ready, ..*old(self) }
            } else if old(self).irq_status == IrqStatus::Pending && !old(self).status.interrupts_disabled {
                Cpu { irq_status: IrqStatus::Ready, ..*old(self) }
            } else {
                *old(self)
            },
    {
        if self.nmi_status == NmiStatus::Pending {
            self.nmi_status = NmiStatus::Ready;
        } else if self.irq_status == IrqStatus::Pending && !self.status.interrupts_disabled {
            self.irq_status = IrqStatus::Ready;
        }
    }

    /// At the end of a cycle: an NMI edge makes the NMI pending; an asserted IRQ line makes an
    /// inactive IRQ pending while interrupts are enabled, and a released one makes the IRQ
    /// inactive, unless it is active while a branch delays it.
    pub fn sample_interrupt_lines(&mut self, nmi_edge_detected: bool, irq_asserted: bool, branch_delay_active: bool)
        ensures
            final(self).nmi_status == if nmi_edge_detected { NmiStatus::Pending } else { old(self).nmi_status },
            final(self).irq_status == if irq_asserted {
                if old(self).irq_status == IrqStatus::Inactive && !old(self).status.interrupts_disabled {
                    IrqStatus::Pending
                } else {
                    old(self).irq_status
                }
            } else if old(self).irq_status != IrqStatus::Active || !branch_delay_active {
                IrqStatus::Inactive
            } else {
                old(self).irq_status
            },
            *final(self) == (Cpu { nmi_status: final(self).nmi_status, irq_status: final(self).irq_status, ..*old(self) }),
    {
        if nmi_edge_detected {
            self.nmi_status = NmiStatus::Pending;
        }
        if irq_asserted {
            if self.irq_status == IrqStatus::Inactive && !self.status.interrupts_disabled {
                self.irq_status = IrqStatus::Pending;
            }
        } else if self.irq_status != IrqStatus::Active || !branch_delay_active {
            self.irq_status = IrqStatus::Inactive;
        }
    }

    /// Carries out one action of the current step, given the address on the bus, what the mode
    /// state reports and the value that the step's bus access moved. What it asks of the mode
    /// state and the DMA units comes back as a request.
    pub fn execute_step_action(
        &mut self,
        cpu_pinout: &mut CpuPinout,
        address_bus: CpuAddress,
        mode: ModeFacts,
        action: StepAction,
        value: u8,
    ) -> (request: StepRequest)
        requires
            action != StepAction::CheckNegativeAndZero,
            action == StepAction::ExecuteOpCode ==> executable_instruction(mode),
        ensures
            (*final(self), *final(cpu_pinout), request)
                == spec_step_action(*old(self), *old(cpu_pinout), address_bus, mode, action, value),
    {
        if is_flow_action_exec(action) {
            let (cpu, pinout, request) = flow_action(*self, *cpu_pinout, mode, action, value);
            *self = cpu;
            *cpu_pinout = pinout;
            request
        } else {
            match action {
                StepAction::ExecuteOpCode => {
                    let instruction = mode.current_instruction.unwrap();
                    let outcome = self.execute_op_code(instruction.template.op_code, instruction.template.access_mode);
                    outcome_to_request(outcome)
                },
                StepAction::IncrementOamDmaAddress => StepRequest::IncrementOamDmaAddress,
                StepAction::SetDmcSampleBuffer => StepRequest::SetDmcSampleBuffer(value),
                _ => {
                    *self = address_action(*self, address_bus, mode, action);
                    StepRequest::Nothing
                },
            }
        }
    }
}

fn is_flow_action_exec(action: StepAction) -> (result: bool)
    ensures
        result == is_flow_action(action),
{
    match action {
        StepAction::StartNextInstruction | StepAction::SetInterruptVector | StepAction::ClearInterruptVector
        | StepAction::PollInterrupts | StepAction::DisableInterrupts | StepAction::MaybeInsertOopsStep
        | StepAction::MaybeInsertBranchOopsStep => true,
        _ => false,
    }
}

/// The op codes whose register a write step stores.
pub open spec fn is_stored_op_code(op_code: OpCode) -> bool {
    op_code == OpCode::STA || op_code == OpCode::STX || op_code == OpCode::STY || op_code == OpCode::SAX
        || op_code == OpCode::SHX || op_code == OpCode::SHY || op_code == OpCode::AHX || op_code == OpCode::TAS
}

/// A field that `field_value` can read: the op register only while a store instruction runs.
pub open spec fn readable_field(mode: ModeFacts, field: Field) -> bool {
    field == Field::OpRegister ==> (mode.current_instruction is Some
        && is_stored_op_code(mode.current_instruction->0.template.op_code))
}

/// The value of a field for a write step, with the CPU and the address bus after it: the
/// undocumented stores also change the address's high byte, or the stack pointer.
pub open spec fn spec_field_value(cpu: Cpu, address_bus: CpuAddress, mode: ModeFacts, field: Field) -> (u8, Cpu, CpuAddress) {
    let low = (address_bus@ % 256) as u8;
    let high = (address_bus@ / 256) as u8;
    match field {
        Field::ProgramCounterLowByte => ((cpu.program_counter@ % 256) as u8, cpu, address_bus),
        Field::ProgramCounterHighByte => ((cpu.program_counter@ / 256) as u8, cpu, address_bus),
        Field::Accumulator => (cpu.a, cpu, address_bus),
        Field::Status => (
            if mode.interrupt_sequence_active { cpu.status.spec_byte(true, false) } else { cpu.status.spec_byte(true, true) },
            cpu,
            address_bus,
        ),
        Field::Argument => (cpu.operand, cpu, address_bus),
        Field::PendingAddressLow => (cpu.pending_address_low, cpu, address_bus),
        Field::PendingAddressHigh => (cpu.pending_address_high, cpu, address_bus),
        Field::OpRegister => match mode.current_instruction->0.template.op_code {
            OpCode::STA => (cpu.a, cpu, address_bus),
            OpCode::STX => (cpu.x, cpu, address_bus),
            OpCode::STY => (cpu.y, cpu, address_bus),
            OpCode::SAX => (cpu.a & cpu.x, cpu, address_bus),
            OpCode::SHX => (cpu.x & high, cpu, pc_at(((cpu.x & high) as int) * 256 + low)),
            OpCode::SHY => (cpu.y, cpu, pc_at(((cpu.y & high) as int) * 256 + low)),
            OpCode::AHX => (cpu.a & cpu.x & high, cpu, pc_at(((cpu.x & high) as int) * 256 + low)),
            _ => (cpu.x & high, Cpu { stack_pointer: cpu.a & cpu.x, ..cpu }, address_bus),
        },
    }
}

/// A field that `set_field_value` can write: neither the program counter's low byte nor the
/// op register.
pub open spec fn writable_field(field: Field) -> bool {
    field != Field::ProgramCounterLowByte && field != Field::OpRegister
}

/// The CPU after a read step stores a value in a field; the program counter takes the value as
/// its high byte and the operand as its low byte.
pub open spec fn spec_field_set(cpu: Cpu, field: Field, value: u8) -> Cpu {
    match field {
        Field::ProgramCounterHighByte => Cpu { program_counter: pc_at(value * 256 + cpu.operand), ..cpu },
        Field::Accumulator => Cpu { a: value, ..cpu },
        Field::Status => Cpu { status: Status::spec_from_byte(value), ..cpu },
        Field::Argument => Cpu { operand: value, ..cpu },
        Field::PendingAddressLow => Cpu { pending_address_low: value, ..cpu },
        Field::PendingAddressHigh => Cpu { pending_address_high: value, ..cpu },
        _ => cpu,
    }
}

impl Cpu {
    /// The value that a write step puts on the data bus from a field.
    pub fn field_value(&mut self, address_bus: &mut CpuAddress, mode: ModeFacts, field: Field) -> (value: u8)
        requires
            readable_field(mode, field),
        ensures
            (value, *final(self), *final(address_bus)) == spec_field_value(*old(self), *old(address_bus), mode, field),
    {
        let (low, high) = address_bus.to_low_high();
        match field {
            Field::ProgramCounterLowByte => self.program_counter.to_low_high().0,
            Field::ProgramCounterHighByte => self.program_counter.to_low_high().1,
            Field::Accumulator => self.a,
            Field::Status => if mode.interrupt_sequence_active {
                self.status.to_interrupt_byte()
            } else {
                self.status.to_instruction_byte()
            },
            Field::Argument => self.operand,
            Field::PendingAddressLow => self.pending_address_low,
            Field::PendingAddressHigh => self.pending_address_high,
            Field::OpRegister => {
                let op_code = mode.current_instruction.unwrap().template.op_code;
                match op_code {
                    OpCode::STA => self.a,
                    OpCode::STX => self.x,
                    OpCode::STY => self.y,
                    OpCode::SAX => self.a & self.x,
                    OpCode::SHX => {
                        *address_bus = CpuAddress::from_low_high(low, self.x & high);
                        proof { lemma_view_injective(*address_bus, pc_at(((self.x & high) as int) * 256 + low)); }
                        self.x & high
                    },
                    OpCode::SHY => {
                        *address_bus = CpuAddress::from_low_high(low, self.y & high);
                        proof { lemma_view_injective(*address_bus, pc_at(((self.y & high) as int) * 256 + low)); }
                        self.y
                    },
                    OpCode::AHX => {
                        *address_bus = CpuAddress::from_low_high(low, self.x & high);
                        proof { lemma_view_injective(*address_bus, pc_at(((self.x & high) as int) * 256 + low)); }
                        self.a & self.x & high
                    },
                    _ => {
                        self.stack_pointer = self.a & self.x;
                        self.x & high
                    },
                }
            },
        }
    }

    /// Stores the value that a read step took from the bus in a field.
    pub fn set_field_value(&mut self, field: Field, value: u8)
        requires
            writable_field(field),
        ensures
            *final(self) == spec_field_set(*old(self), field, value),
    {
        match field {
            Field::ProgramCounterHighByte => {
                self.program_counter = CpuAddress::from_low_high(self.operand, value);
                proof { lemma_view_injective(self.program_counter, pc_at(value * 256 + old(self).operand)); }
            },
            Field::Accumulator => self.a = value,
            Field::Status => self.status = Status::from_byte(value),
            Field::Argument => self.operand = value,
            Field::PendingAddressLow => self.pending_address_low = value,
            Field::PendingAddressHigh => self.pending_address_high = value,
            _ => {},
        }
    }
}

} // verus!
