use vstd::prelude::*;

use crate::apu::apu_registers::CycleParity;
use crate::cpu::cpu::{pc_at, Cpu, IrqStatus, NmiStatus};
use crate::cpu::cpu_mode::{CpuMode, CpuModeState, CpuModeView, INTERRUPT_STEP_COUNT, RESET_STEP_COUNT};
use crate::cpu::dmc_dma::{DmcDma, DmcDmaAction};
use crate::cpu::oam_dma::{OamDma, OamDmaAction};
use crate::cpu::step_action::{Field, From, StepAction, To};
use crate::memory::cpu_address::lemma_view_injective;

verus! {

/// The bus access of a CPU cycle: a read or a write, into or out of a register where a field is
/// named, or an access by one of the DMA units.
#[derive(PartialEq, Eq, Clone, Copy, Debug, Structural)]
pub enum StepKind {
    Read(From),
    Write(To),
    ReadField(Field, From),
    WriteField(Field, To),
    OamRead(From),
    OamWrite(To),
    DmcRead(From),
}

/// One CPU cycle: its bus access and the actions that follow it.
#[derive(Debug)]
pub struct Step {
    pub kind: StepKind,
    pub actions: Vec<StepAction>,
}

/// A step as plain values.
pub struct StepView {
    pub kind: StepKind,
    pub actions: Seq<StepAction>,
}

impl View for Step {
    type V = StepView;

    open spec fn view(&self) -> StepView {
        StepView { kind: self.kind, actions: self.actions@ }
    }
}

impl StepView {
    pub open spec fn spec_is_read(self) -> bool {
        self.kind is Read || self.kind is ReadField
    }

    /// The same access without its actions; a field access becomes a plain one.
    pub open spec fn spec_with_actions_removed(self) -> StepView {
        StepView {
            kind: match self.kind {
                StepKind::ReadField(_, from) => StepKind::Read(from),
                StepKind::WriteField(_, to) => StepKind::Write(to),
                kind => kind,
            },
            actions: seq![],
        }
    }
}

/// The OAM DMA's read from its address.
pub open spec fn spec_oam_read_step() -> StepView {
    StepView { kind: StepKind::OamRead(From::OamDmaAddressTarget), actions: seq![] }
}

/// The OAM DMA's write to the OAM data port, moving on to its next address.
pub open spec fn spec_oam_write_step() -> StepView {
    StepView {
        kind: StepKind::OamWrite(To::AddressTarget(pc_at(0x2004))),
        actions: seq![StepAction::IncrementOamDmaAddress],
    }
}

/// The DMC DMA's read from its address, handing the value to the DMC.
pub open spec fn spec_dmc_read_step() -> StepView {
    StepView { kind: StepKind::DmcRead(From::DmcDmaAddressTarget), actions: seq![StepAction::SetDmcSampleBuffer] }
}

impl Step {
    pub fn oam_read_step() -> (step: Step)
        ensures
            step@ == spec_oam_read_step(),
    {
        Step { kind: StepKind::OamRead(From::OamDmaAddressTarget), actions: Vec::new() }
    }

    pub fn oam_write_step() -> (step: Step)
        ensures
            step@ == spec_oam_write_step(),
    {
        let to = To::oam_data();
        proof {
            if let To::AddressTarget(address) = to {
                lemma_view_injective(address, pc_at(0x2004));
            }
        }
        let actions = vec![StepAction::IncrementOamDmaAddress];
        assert(actions@ =~= seq![StepAction::IncrementOamDmaAddress]);
        Step { kind: StepKind::OamWrite(to), actions }
    }

    pub fn dmc_read_step() -> (step: Step)
        ensures
            step@ == spec_dmc_read_step(),
    {
        let actions = vec![StepAction::SetDmcSampleBuffer];
        assert(actions@ =~= seq![StepAction::SetDmcSampleBuffer]);
        Step { kind: StepKind::DmcRead(From::DmcDmaAddressTarget), actions }
    }

    /// Reading the op code at the program counter, which starts the next instruction.
    pub fn read_op_code_step() -> (step: Step)
        ensures
            step@ == (StepView {
                kind: StepKind::Read(From::ProgramCounterTarget),
                actions: seq![StepAction::StartNextInstruction, StepAction::IncrementPC],
            }),
    {
        Step {
            kind: StepKind::Read(From::ProgramCounterTarget),
            actions: vec![StepAction::StartNextInstruction, StepAction::IncrementPC],
        }
    }

    /// Reading the operand again from the computed address, once its page is fixed.
    pub fn oops_step() -> (step: Step)
        ensures
            step@ == (StepView { kind: StepKind::ReadField(Field::Argument, From::ComputedTarget), actions: seq![] }),
    {
        Step { kind: StepKind::ReadField(Field::Argument, From::ComputedTarget), actions: Vec::new() }
    }

    pub fn actions(&self) -> (actions: &[StepAction])
        ensures
            actions@ == self.actions@,
    {
        self.actions.as_slice()
    }

    pub fn has_start_new_instruction(&self) -> (has: bool)
        ensures
            has == self.actions@.contains(StepAction::StartNextInstruction),
    {
        self.has_action(StepAction::StartNextInstruction)
    }

    pub fn has_interpret_op_code(&self) -> (has: bool)
        ensures
            has == self.actions@.contains(StepAction::InterpretOpCode),
    {
        self.has_action(StepAction::InterpretOpCode)
    }

    fn has_action(&self, wanted: StepAction) -> (has: bool)
        ensures
            has == self.actions@.contains(wanted),
    {
        let mut i: usize = 0;
        while i < self.actions.len()
            invariant
                i <= self.actions@.len(),
                forall|j: int| 0 <= j < i ==> self.actions@[j] != wanted,
            decreases self.actions@.len() - i,
        {
            if self.actions[i] == wanted {
                return true;
            }
            i = i + 1;
        }
        false
    }

    pub fn is_read(&self) -> (is_read: bool)
        ensures
            is_read == self@.spec_is_read(),
    {
        match self.kind {
            StepKind::Read(_) | StepKind::ReadField(_, _) => true,
            _ => false,
        }
    }

    pub fn with_actions_removed(&self) -> (step: Step)
        ensures
            step@ == self@.spec_with_actions_removed(),
    {
        let kind = match self.kind {
            StepKind::ReadField(_, from) => StepKind::Read(from),
            StepKind::WriteField(_, to) => StepKind::Write(to),
            kind => kind,
        };
        Step { kind, actions: Vec::new() }
    }
}

/// A step of a table, as plain values.
pub open spec fn step_view(kind: StepKind, actions: Seq<StepAction>) -> StepView {
    StepView { kind, actions }
}

/// The RESET sequence: two reads at the program counter, three reads of the stack that move the
/// stack pointer down (the last choosing the interrupt vector), then the vector's two bytes.
pub open spec fn spec_reset_steps() -> Seq<StepView> {
    seq![
        step_view(StepKind::Read(From::ProgramCounterTarget), seq![StepAction::IncrementPC]),
        step_view(StepKind::Read(From::ProgramCounterTarget), seq![]),
        step_view(StepKind::Read(From::TopOfStack), seq![StepAction::DecrementStackPointer]),
        step_view(StepKind::Read(From::TopOfStack), seq![StepAction::DecrementStackPointer]),
        step_view(StepKind::Read(From::TopOfStack), seq![StepAction::DecrementStackPointer, StepAction::SetInterruptVector]),
        step_view(StepKind::ReadField(Field::Argument, From::InterruptVectorLow), seq![StepAction::DisableInterrupts]),
        step_view(StepKind::ReadField(Field::ProgramCounterHighByte, From::InterruptVectorHigh), seq![StepAction::ClearInterruptVector]),
    ]
}

/// The BRK, IRQ and NMI sequence: the operand, three pushes (program counter high and low
/// bytes, then the status, which chooses the interrupt vector), then the vector's two bytes.
pub open spec fn spec_interrupt_steps() -> Seq<StepView> {
    seq![
        step_view(StepKind::ReadField(Field::Argument, From::ProgramCounterTarget), seq![StepAction::InterpretOpCode, StepAction::IncrementPC]),
        step_view(StepKind::WriteField(Field::ProgramCounterHighByte, To::TopOfStack), seq![StepAction::DecrementStackPointer]),
        step_view(StepKind::WriteField(Field::ProgramCounterLowByte, To::TopOfStack), seq![StepAction::DecrementStackPointer]),
        step_view(StepKind::WriteField(Field::Status, To::TopOfStack), seq![StepAction::DecrementStackPointer, StepAction::SetInterruptVector]),
        step_view(StepKind::ReadField(Field::Argument, From::InterruptVectorLow), seq![StepAction::DisableInterrupts]),
        step_view(StepKind::ReadField(Field::ProgramCounterHighByte, From::InterruptVectorHigh), seq![StepAction::ClearInterruptVector]),
    ]
}

fn make_step(kind: StepKind, actions: Vec<StepAction>) -> (step: Step)
    ensures
        step@ == step_view(kind, actions@),
{
    Step { kind, actions }
}

/// The steps of the RESET sequence, as many as the mode state counts.
pub fn reset_steps() -> (steps: Vec<Step>)
    ensures
        steps@.len() == RESET_STEP_COUNT,
        forall|i: int| 0 <= i < steps@.len() ==> #[trigger] steps@[i]@ == spec_reset_steps()[i],
{
    let mut steps: Vec<Step> = Vec::new();
    steps.push(make_step(StepKind::Read(From::ProgramCounterTarget), vec![StepAction::IncrementPC]));
    steps.push(make_step(StepKind::Read(From::ProgramCounterTarget), Vec::new()));
    steps.push(make_step(StepKind::Read(From::TopOfStack), vec![StepAction::DecrementStackPointer]));
    steps.push(make_step(StepKind::Read(From::TopOfStack), vec![StepAction::DecrementStackPointer]));
    steps.push(make_step(
        StepKind::Read(From::TopOfStack),
        vec![StepAction::DecrementStackPointer, StepAction::SetInterruptVector],
    ));
    steps.push(make_step(StepKind::ReadField(Field::Argument, From::InterruptVectorLow), vec![StepAction::DisableInterrupts]));
    steps.push(make_step(
        StepKind::ReadField(Field::ProgramCounterHighByte, From::InterruptVectorHigh),
        vec![StepAction::ClearInterruptVector],
    ));
    assert forall|i: int| 0 <= i < steps@.len() implies #[trigger] steps@[i]@ == spec_reset_steps()[i] by {
        assert(steps@[i]@.actions =~= spec_reset_steps()[i].actions);
    }
    steps
}

/// The steps of the BRK, IRQ and NMI sequence, as many as the mode state counts.
pub fn interrupt_steps() -> (steps: Vec<Step>)
    ensures
        steps@.len() == INTERRUPT_STEP_COUNT,
        forall|i: int| 0 <= i < steps@.len() ==> #[trigger] steps@[i]@ == spec_interrupt_steps()[i],
{
    let mut steps: Vec<Step> = Vec::new();
    steps.push(make_step(
        StepKind::ReadField(Field::Argument, From::ProgramCounterTarget),
        vec![StepAction::InterpretOpCode, StepAction::IncrementPC],
    ));
    steps.push(make_step(StepKind::WriteField(Field::ProgramCounterHighByte, To::TopOfStack), vec![StepAction::DecrementStackPointer]));
    steps.push(make_step(StepKind::WriteField(Field::ProgramCounterLowByte, To::TopOfStack), vec![StepAction::DecrementStackPointer]));
    steps.push(make_step(
        StepKind::WriteField(Field::Status, To::TopOfStack),
        vec![StepAction::DecrementStackPointer, StepAction::SetInterruptVector],
    ));
    steps.push(make_step(StepKind::ReadField(Field::Argument, From::InterruptVectorLow), vec![StepAction::DisableInterrupts]));
    steps.push(make_step(
        StepKind::ReadField(Field::ProgramCounterHighByte, From::InterruptVectorHigh),
        vec![StepAction::ClearInterruptVector],
    ));
    assert forall|i: int| 0 <= i < steps@.len() implies #[trigger] steps@[i]@ == spec_interrupt_steps()[i] by {
        assert(steps@[i]@.actions =~= spec_interrupt_steps()[i].actions);
    }
    steps
}

/// The step that runs after the DMA units had their say: the DMC halts the CPU (its step keeps
/// its access but loses its actions) or reads in its place; then the OAM DMA does the same, or
/// reads or writes in its place, blocked from the bus while the DMC reads.
pub open spec fn spec_chosen_step(current: StepView, dmc_action: DmcDmaAction, oam_action: OamDmaAction) -> StepView {
    let after_dmc = spec_step_after_dmc(current, dmc_action);
    match oam_action {
        OamDmaAction::DoNothing => after_dmc,
        OamDmaAction::Halt | OamDmaAction::Align => after_dmc.spec_with_actions_removed(),
        OamDmaAction::Read => spec_oam_read_step(),
        OamDmaAction::Write => spec_oam_write_step(),
    }
}

/// The step after the DMC DMA had its say.
pub open spec fn spec_step_after_dmc(current: StepView, dmc_action: DmcDmaAction) -> StepView {
    match dmc_action {
        DmcDmaAction::DoNothing => current,
        DmcDmaAction::Halt | DmcDmaAction::Dummy | DmcDmaAction::Align => current.spec_with_actions_removed(),
        DmcDmaAction::Read => spec_dmc_read_step(),
    }
}

/// Steps both DMA units on the current step and returns the step that runs in its place.
pub fn choose_step(current: Step, dmc_dma: &mut DmcDma, oam_dma: &mut OamDma, parity: CycleParity) -> (step: Step)
    ensures
        final(dmc_dma)@ == old(dmc_dma)@.spec_step(current@.spec_is_read(), parity),
        ({
            let dmc_action = final(dmc_dma)@.latest_action;
            let after_dmc = spec_step_after_dmc(current@, dmc_action);
            let (oam_state, oam_action) = old(oam_dma)@.0.spec_step(
                after_dmc.spec_is_read(),
                parity,
                dmc_action == DmcDmaAction::Read,
            );
            &&& final(oam_dma)@ == (oam_state, old(oam_dma)@.1)
            &&& step@ == spec_chosen_step(current@, dmc_action, oam_action)
        }),
{
    dmc_dma.step(current.is_read(), parity);
    let dmc_action = dmc_dma.latest_action();
    let after_dmc = match dmc_action {
        DmcDmaAction::DoNothing => current,
        DmcDmaAction::Halt | DmcDmaAction::Dummy | DmcDmaAction::Align => current.with_actions_removed(),
        DmcDmaAction::Read => Step::dmc_read_step(),
    };
    let block_memory_access = dmc_action == DmcDmaAction::Read;
    let oam_action = oam_dma.step(after_dmc.is_read(), parity, block_memory_access);
    match oam_action {
        OamDmaAction::DoNothing => after_dmc,
        OamDmaAction::Halt | OamDmaAction::Align => after_dmc.with_actions_removed(),
        OamDmaAction::Read => Step::oam_read_step(),
        OamDmaAction::Write => Step::oam_write_step(),
    }
}

/// The first half of a CPU cycle, up to its bus access: nothing while RESET is held or the CPU
/// is jammed; otherwise a pending interrupt becomes ready and the DMA units choose the step.
pub fn begin_step(
    cpu: &mut Cpu,
    mode: &mut CpuModeState,
    reset_held: bool,
    current: Step,
    dmc_dma: &mut DmcDma,
    oam_dma: &mut OamDma,
    parity: CycleParity,
) -> (step: Option<Step>)
    ensures
        reset_held ==> step is None && *final(cpu) == *old(cpu) && final(mode)@ == old(mode)@
            && final(dmc_dma)@ == old(dmc_dma)@ && final(oam_dma)@ == old(oam_dma)@,
        !reset_held ==> final(mode)@ == (CpuModeView {
            new_instruction_with_address: None,
            ..old(mode)@
        }),
        !reset_held && old(mode)@.mode == CpuMode::Jammed ==> step is None
            && *final(cpu) == *old(cpu) && final(dmc_dma)@ == old(dmc_dma)@ && final(oam_dma)@ == old(oam_dma)@,
        !reset_held && old(mode)@.mode != CpuMode::Jammed ==> {
            let dmc_action = final(dmc_dma)@.latest_action;
            let after_dmc = spec_step_after_dmc(current@, dmc_action);
            let (oam_state, oam_action) = old(oam_dma)@.0.spec_step(
                after_dmc.spec_is_read(),
                parity,
                dmc_action == DmcDmaAction::Read,
            );
            &&& step is Some && step->0@ == spec_chosen_step(current@, dmc_action, oam_action)
            &&& final(dmc_dma)@ == old(dmc_dma)@.spec_step(current@.spec_is_read(), parity)
            &&& final(oam_dma)@ == (oam_state, old(oam_dma)@.1)
            &&& *final(cpu) == if old(cpu).nmi_status == NmiStatus::Pending {
                Cpu { nmi_status: NmiStatus::Ready, ..*old(cpu) }
            } else if old(cpu).irq_status == IrqStatus::Pending && !old(cpu).status.interrupts_disabled {
                Cpu { irq_status: IrqStatus::Ready, ..*old(cpu) }
            } else {
                *old(cpu)
            }
        },
{
    if reset_held {
        return None;
    }
    mode.clear_new_instruction();
    if mode.is_jammed() {
        return None;
    }
    cpu.ready_pending_interrupt();
    Some(choose_step(current, dmc_dma, oam_dma, parity))
}

} // verus!
