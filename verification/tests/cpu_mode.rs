use reznez::cpu::cpu_mode::{CpuModeState, InterruptType, StepPosition, StepTable};
use reznez::cpu::instruction::{AccessMode, Argument, Instruction, InstructionTemplate, OpCode};
use reznez::memory::cpu_address::CpuAddress;

fn lda_absolute() -> Instruction {
    Instruction {
        template: InstructionTemplate { code_point: 0xAD, op_code: OpCode::LDA, access_mode: AccessMode::Abs },
        argument: Argument::Addr(CpuAddress::new(0x1234)),
        page_boundary_crossed: false,
    }
}

fn finish_reset(state: &mut CpuModeState) {
    for _ in 0..7 {
        state.step();
    }
}

#[test]
fn reset_sequence_then_next_instruction() {
    let mut state = CpuModeState::startup();
    assert_eq!(state.current_step(), StepPosition::InTable(StepTable::Reset, 0));
    assert!(state.is_interrupt_sequence_active());
    state.step();
    state.step();
    assert_eq!(state.current_step(), StepPosition::InTable(StepTable::Reset, 2));
    for _ in 0..4 {
        state.step();
    }
    assert_eq!(state.current_step(), StepPosition::InTable(StepTable::Reset, 6));
    state.step();
    assert_eq!(state.current_step(), StepPosition::InTable(StepTable::ReadOpCode, 0));
    assert!(!state.is_interrupt_sequence_active());

    let instruction = lda_absolute();
    state.instruction(instruction, 3);
    state.set_current_instruction_with_address(instruction, CpuAddress::new(0x8000));
    assert_eq!(state.new_instruction_with_address(), Some((instruction, CpuAddress::new(0x8000))));
    state.step();
    assert_eq!(state.current_step(), StepPosition::InTable(StepTable::Instruction(instruction), 0));
    assert_eq!(state.current_instruction(), Some(instruction));
}

#[test]
fn oops_inserts_a_step_and_resumes_after_the_current_one() {
    let mut state = CpuModeState::startup();
    finish_reset(&mut state);
    state.instruction(lda_absolute(), 4);
    state.step();
    state.step();
    state.oops();
    state.step();
    assert_eq!(state.current_step(), StepPosition::Oops);
}

#[test]
fn taken_branch_suppresses_the_next_start_and_jam_sticks() {
    let mut state = CpuModeState::startup();
    finish_reset(&mut state);
    let branch = Instruction {
        template: InstructionTemplate { code_point: 0xD0, op_code: OpCode::BNE, access_mode: AccessMode::Rel },
        argument: Argument::Imm(0x10),
        page_boundary_crossed: false,
    };
    state.instruction(branch, 2);
    state.step();
    state.branch_taken();
    assert!(state.should_suppress_next_instruction_start());
    state.step();
    assert_eq!(state.current_step(), StepPosition::InTable(StepTable::BranchTaken, 0));

    let mut state = CpuModeState::startup();
    finish_reset(&mut state);
    state.jammed();
    state.interrupt_sequence(InterruptType::Nmi);
    state.step();
    assert!(state.is_jammed());
}
