use vstd::prelude::*;

use crate::cpu::instruction::{Instruction, OpCode};
use crate::memory::cpu_address::CpuAddress;

verus! {

/// What the CPU is doing: starting the next instruction, running one, running an interrupt
/// sequence, or jammed.
#[derive(PartialEq, Eq, Clone, Copy, Debug, Structural)]
pub enum CpuMode {
    StartNext,
    Instruction(OpCode, InstructionMode),
    InterruptSequence(InterruptType),
    Jammed,
}

/// Where an instruction is: in its own steps, in an inserted step that fixes an address's page,
/// or in the steps of a taken branch.
#[derive(PartialEq, Eq, Clone, Copy, Debug, Structural)]
pub enum InstructionMode {
    Normal,
    Oops,
    BranchTaken,
    BranchOops,
}

/// The table of steps that the CPU walks through.
#[derive(PartialEq, Eq, Clone, Copy, Debug, Structural)]
pub enum StepTable {
    Reset,
    InterruptSequence,
    Instruction(Instruction),
    BranchTaken,
    ReadOpCode,
    Empty,
}

/// Which step the CPU is at: the inserted page-fixing step, or a step of its table.
#[derive(PartialEq, Eq, Clone, Copy, Debug, Structural)]
pub enum StepPosition {
    Oops,
    InTable(StepTable, usize),
}

/// The mode state of the CPU, as plain values.
pub struct CpuModeView {
    pub steps: StepTable,
    pub step_count: usize,
    pub step_index: usize,
    pub mode: CpuMode,
    pub next_mode: Option<CpuMode>,
    pub current_instruction: Option<Instruction>,
    pub new_instruction_with_address: Option<(Instruction, CpuAddress)>,
}

/// The number of steps of the RESET sequence.
pub const RESET_STEP_COUNT: usize = 7;

/// The number of steps of the BRK, IRQ and NMI sequence.
pub const INTERRUPT_STEP_COUNT: usize = 6;

/// Which step of which table the CPU is at, what it is doing and what it does next. A table's
/// steps are held by their number: an instruction's is given when it starts.
pub struct CpuModeState {
    steps: StepTable,
    step_count: usize,
    step_index: usize,
    mode: CpuMode,
    next_mode: Option<CpuMode>,
    current_instruction: Option<Instruction>,
    new_instruction_with_address: Option<(Instruction, CpuAddress)>,
}

impl View for CpuModeState {
    type V = CpuModeView;

    closed spec fn view(&self) -> CpuModeView {
        CpuModeView {
            steps: self.steps,
            step_count: self.step_count,
            step_index: self.step_index,
            mode: self.mode,
            next_mode: self.next_mode,
            current_instruction: self.current_instruction,
            new_instruction_with_address: self.new_instruction_with_address,
        }
    }
}

impl CpuModeView {
    /// Only a jam leaves an empty table; the step index lies within the table, unless a pending
    /// mode other than an oops resets it; and a pending instruction has its steps.
    pub open spec fn inv(self) -> bool {
        &&& (self.step_count == 0 ==> self.mode == CpuMode::Jammed && self.step_index == 0)
        &&& (self.next_mode is None || self.next_mode matches Some(CpuMode::Instruction(_, InstructionMode::Oops)))
            ==> (self.step_count > 0 ==> self.step_index < self.step_count)
        &&& (self.next_mode matches Some(CpuMode::Instruction(_, InstructionMode::Normal))) ==> self.step_count >= 1
    }

    pub open spec fn spec_is_interrupt_sequence_active(self) -> bool {
        (self.next_mode matches Some(CpuMode::InterruptSequence(_))) || self.mode is InterruptSequence
    }

    pub open spec fn spec_should_suppress_next_instruction_start(self) -> bool {
        (self.next_mode matches Some(CpuMode::Instruction(_, InstructionMode::BranchTaken)))
            || (self.next_mode matches Some(CpuMode::Instruction(_, InstructionMode::BranchOops)))
    }

    /// Whether `step` can run: a pending mode change is not to `StartNext`, an oops step only
    /// follows an instruction, and without a pending change the CPU is not at the last step of
    /// `StartNext` or of a branch.
    pub open spec fn can_step(self) -> bool {
        match self.next_mode {
            Some(next_mode) => next_mode != CpuMode::StartNext
                && ((next_mode matches CpuMode::Instruction(_, InstructionMode::Oops)) ==> self.mode is Instruction),
            None => self.step_count > 0 && (self.step_index == self.step_count - 1 ==> !(
                self.mode == CpuMode::StartNext
                || (self.mode matches CpuMode::Instruction(_, InstructionMode::BranchTaken))
                || (self.mode matches CpuMode::Instruction(_, InstructionMode::BranchOops)))),
        }
    }

    /// The state after one step, as `CpuModeState::step` makes it.
    pub open spec fn spec_stepped(self) -> CpuModeView {
        match self.next_mode {
            Some(next_mode) => {
                let (steps, step_count) = match next_mode {
                    CpuMode::Jammed => (StepTable::Empty, 0usize),
                    CpuMode::InterruptSequence(InterruptType::Reset) => (StepTable::Reset, RESET_STEP_COUNT),
                    CpuMode::InterruptSequence(_) => (StepTable::InterruptSequence, INTERRUPT_STEP_COUNT),
                    CpuMode::Instruction(_, InstructionMode::BranchTaken) => (StepTable::BranchTaken, 1usize),
                    CpuMode::Instruction(_, InstructionMode::BranchOops) => (StepTable::ReadOpCode, 1usize),
                    _ => (self.steps, self.step_count),
                };
                let is_oops = next_mode matches CpuMode::Instruction(_, InstructionMode::Oops);
                CpuModeView {
                    steps,
                    step_count,
                    step_index: if is_oops { self.step_index } else { 0 },
                    mode: next_mode,
                    next_mode: None,
                    ..self
                }
            },
            None => if self.step_index < self.step_count - 1 {
                CpuModeView { step_index: (self.step_index + 1) as usize, ..self }
            } else {
                match self.mode {
                    CpuMode::Instruction(op_code, InstructionMode::Oops) => CpuModeView {
                        mode: CpuMode::Instruction(op_code, InstructionMode::Normal),
                        ..self
                    },
                    CpuMode::Jammed => self,
                    _ => CpuModeView {
                        steps: StepTable::ReadOpCode,
                        step_count: 1,
                        step_index: 0,
                        mode: CpuMode::StartNext,
                        ..self
                    },
                }
            },
        }
    }
}

impl CpuModeState {
    /// The state at power-up: the RESET sequence, from its first step.
    pub fn startup() -> (state: Self)
        ensures
            state@.inv(),
            state@ == (CpuModeView {
                steps: StepTable::Reset,
                step_count: RESET_STEP_COUNT,
                step_index: 0,
                mode: CpuMode::InterruptSequence(InterruptType::Reset),
                next_mode: None,
                current_instruction: None,
                new_instruction_with_address: None,
            }),
    {
        Self {
            steps: StepTable::Reset,
            step_count: RESET_STEP_COUNT,
            step_index: 0,
            mode: CpuMode::InterruptSequence(InterruptType::Reset),
            next_mode: None,
            current_instruction: None,
            new_instruction_with_address: None,
        }
    }

    pub fn is_jammed(&self) -> (jammed: bool)
        ensures
            jammed == (self@.mode == CpuMode::Jammed),
    {
        self.mode == CpuMode::Jammed
    }

    /// A taken branch is about to replace the start of the next instruction.
    pub fn should_suppress_next_instruction_start(&self) -> (suppress: bool)
        ensures
            suppress == self@.spec_should_suppress_next_instruction_start(),
    {
        match self.next_mode {
            Some(CpuMode::Instruction(_, InstructionMode::BranchTaken)) => true,
            Some(CpuMode::Instruction(_, InstructionMode::BranchOops)) => true,
            _ => false,
        }
    }

    /// An interrupt sequence is running, or is about to.
    pub fn is_interrupt_sequence_active(&self) -> (active: bool)
        ensures
            active == self@.spec_is_interrupt_sequence_active(),
    {
        let next_is_interrupt = match self.next_mode {
            Some(CpuMode::InterruptSequence(_)) => true,
            _ => false,
        };
        let current_is_interrupt = match self.mode {
            CpuMode::InterruptSequence(_) => true,
            _ => false,
        };
        next_is_interrupt || current_is_interrupt
    }

    /// The step the CPU is at: the inserted step while an instruction fixes an address's page,
    /// else the step of its table.
    pub fn current_step(&self) -> (position: StepPosition)
        ensures
            position == if self@.mode matches CpuMode::Instruction(_, InstructionMode::Oops) {
                StepPosition::Oops
            } else {
                StepPosition::InTable(self@.steps, self@.step_index)
            },
    {
        match self.mode {
            CpuMode::Instruction(_, InstructionMode::Oops) => StepPosition::Oops,
            _ => StepPosition::InTable(self.steps, self.step_index),
        }
    }

    pub fn current_instruction(&self) -> (instruction: Option<Instruction>)
        ensures
            instruction == self@.current_instruction,
    {
        self.current_instruction
    }

    /// The instruction just started and its address, while the CPU starts or runs an
    /// instruction normally.
    pub fn new_instruction_with_address(&self) -> (new: Option<(Instruction, CpuAddress)>)
        ensures
            new == if self@.mode == CpuMode::StartNext
                || (self@.mode matches CpuMode::Instruction(_, InstructionMode::Normal)) {
                self@.new_instruction_with_address
            } else {
                None
            },
    {
        match self.mode {
            CpuMode::StartNext | CpuMode::Instruction(_, InstructionMode::Normal) => self.new_instruction_with_address,
            _ => None,
        }
    }

    pub fn clear_new_instruction(&mut self)
        ensures
            final(self)@ == (CpuModeView { new_instruction_with_address: None, ..old(self)@ }),
    {
        self.new_instruction_with_address = None;
    }

    pub fn set_current_instruction_with_address(&mut self, instruction: Instruction, address: CpuAddress)
        ensures
            final(self)@ == (CpuModeView {
                current_instruction: Some(instruction),
                new_instruction_with_address: Some((instruction, address)),
                ..old(self)@
            }),
    {
        self.current_instruction = Some(instruction);
        self.new_instruction_with_address = Some((instruction, address));
    }

    /// Starts an instruction of `step_count` steps at the next step.
    pub fn instruction(&mut self, instruction: Instruction, step_count: usize)
        requires
            old(self)@.inv(),
            step_count >= 1,
        ensures
            final(self)@.inv(),
            final(self)@ == (CpuModeView {
                steps: StepTable::Instruction(instruction),
                step_count,
                next_mode: Some(CpuMode::Instruction(instruction.template.op_code, InstructionMode::Normal)),
                ..old(self)@
            }),
    {
        self.steps = StepTable::Instruction(instruction);
        self.step_count = step_count;
        self.next_mode = Some(CpuMode::Instruction(instruction.template.op_code, InstructionMode::Normal));
    }

    /// Starts an interrupt sequence at the next step, unless a jam is coming.
    pub fn interrupt_sequence(&mut self, interrupt_type: InterruptType)
        requires
            old(self)@.next_mode is None || old(self)@.next_mode == Some(CpuMode::Jammed),
        ensures
            final(self)@ == if old(self)@.next_mode == Some(CpuMode::Jammed) {
                old(self)@
            } else {
                CpuModeView {
                    next_mode: Some(CpuMode::InterruptSequence(interrupt_type)),
                    current_instruction: None,
                    ..old(self)@
                }
            },
    {
        if self.next_mode == Some(CpuMode::Jammed) {
            return;
        }
        self.next_mode = Some(CpuMode::InterruptSequence(interrupt_type));
        self.current_instruction = None;
    }

    /// Jams the CPU at the next step.
    pub fn jammed(&mut self)
        requires
            old(self)@.next_mode is None,
        ensures
            final(self)@ == (CpuModeView { next_mode: Some(CpuMode::Jammed), ..old(self)@ }),
    {
        self.next_mode = Some(CpuMode::Jammed);
    }

    /// A branch of the instruction that runs normally was taken.
    pub fn branch_taken(&mut self)
        requires
            old(self)@.next_mode is None,
            old(self)@.mode matches CpuMode::Instruction(_, InstructionMode::Normal),
        ensures
            final(self)@ == (CpuModeView {
                next_mode: Some(CpuMode::Instruction(old(self)@.mode->Instruction_0, InstructionMode::BranchTaken)),
                ..old(self)@
            }),
    {
        if let CpuMode::Instruction(op_code, _) = self.mode {
            self.next_mode = Some(CpuMode::Instruction(op_code, InstructionMode::BranchTaken));
        }
    }

    /// A taken branch left its page.
    pub fn branch_oops(&mut self)
        requires
            old(self)@.next_mode is None,
            old(self)@.mode matches CpuMode::Instruction(_, InstructionMode::BranchTaken),
        ensures
            final(self)@ == (CpuModeView {
                next_mode: Some(CpuMode::Instruction(old(self)@.mode->Instruction_0, InstructionMode::BranchOops)),
                ..old(self)@
            }),
    {
        if let CpuMode::Instruction(op_code, _) = self.mode {
            self.next_mode = Some(CpuMode::Instruction(op_code, InstructionMode::BranchOops));
        }
    }

    /// An address left its page: the page-fixing step comes next, and the instruction resumes
    /// after the current step.
    pub fn oops(&mut self)
        requires
            old(self)@.inv(),
            old(self)@.next_mode is None,
            old(self)@.mode matches CpuMode::Instruction(_, InstructionMode::Normal),
            old(self)@.step_index + 1 < old(self)@.step_count,
        ensures
            final(self)@.inv(),
            final(self)@ == (CpuModeView {
                step_index: (old(self)@.step_index + 1) as usize,
                next_mode: Some(CpuMode::Instruction(old(self)@.mode->Instruction_0, InstructionMode::Oops)),
                ..old(self)@
            }),
    {
        if let CpuMode::Instruction(op_code, _) = self.mode {
            self.step_index += 1;
            self.next_mode = Some(CpuMode::Instruction(op_code, InstructionMode::Oops));
        }
    }

    /// The interrupt vector was chosen: an interrupt takes over the current sequence.
    pub fn interrupt_vector_set(&mut self, interrupt_vector: Option<InterruptType>)
        ensures
            final(self)@ == match interrupt_vector {
                Some(interrupt_type) => CpuModeView { mode: CpuMode::InterruptSequence(interrupt_type), ..old(self)@ },
                None => old(self)@,
            },
    {
        if let Some(interrupt_type) = interrupt_vector {
            self.mode = CpuMode::InterruptSequence(interrupt_type);
        }
    }

    /// Moves to the next step: into a pending mode, along the table, or, after the last step of
    /// an instruction or an interrupt sequence, to starting the next instruction.
    pub fn step(&mut self)
        requires
            old(self)@.inv(),
            old(self)@.can_step(),
        ensures
            final(self)@.inv(),
            final(self)@ == old(self)@.spec_stepped(),
    {
        if let Some(next_mode) = self.next_mode {
            self.next_mode = None;
            match next_mode {
                CpuMode::Jammed => {
                    self.steps = StepTable::Empty;
                    self.step_count = 0;
                },
                CpuMode::InterruptSequence(InterruptType::Reset) => {
                    self.steps = StepTable::Reset;
                    self.step_count = RESET_STEP_COUNT;
                },
                CpuMode::InterruptSequence(_) => {
                    self.steps = StepTable::InterruptSequence;
                    self.step_count = INTERRUPT_STEP_COUNT;
                },
                CpuMode::Instruction(_, InstructionMode::BranchTaken) => {
                    self.steps = StepTable::BranchTaken;
                    self.step_count = 1;
                },
                CpuMode::Instruction(_, InstructionMode::BranchOops) => {
                    self.steps = StepTable::ReadOpCode;
                    self.step_count = 1;
                },
                _ => {},
            }
            self.mode = next_mode;
            let is_oops = match next_mode {
                CpuMode::Instruction(_, InstructionMode::Oops) => true,
                _ => false,
            };
            if !is_oops {
                self.step_index = 0;
            }
            return;
        }

        if self.step_index < self.step_count - 1 {
            self.step_index += 1;
            return;
        }

        match self.mode {
            CpuMode::Instruction(op_code, InstructionMode::Oops) => {
                self.mode = CpuMode::Instruction(op_code, InstructionMode::Normal);
            },
            CpuMode::Jammed => {},
            _ => {
                self.steps = StepTable::ReadOpCode;
                self.step_count = 1;
                self.step_index = 0;
                self.mode = CpuMode::StartNext;
            },
        }
    }
}

/// The kinds of interrupt sequence.
#[derive(PartialEq, Eq, Clone, Copy, Debug, Structural)]
pub enum InterruptType {
    Nmi,
    Reset,
    Irq,
}

} // verus!
