use reznez::cpu::instruction::{instruction_template, instruction_templates, AccessMode, Argument, Instruction, OpCode};
use reznez::memory::cpu_address::CpuAddress;

fn memory_with(start: u16, bytes: &[u8]) -> Vec<u8> {
    let mut mem = vec![0u8; 0x10000];
    for (i, &b) in bytes.iter().enumerate() {
        mem[start as usize + i] = b;
    }
    mem
}

#[test]
fn templates_follow_the_table() {
    let lda = instruction_template(0xA9);
    assert_eq!(lda.op_code, OpCode::LDA);
    assert_eq!(lda.access_mode, AccessMode::Imm);
    assert_eq!(instruction_template(0x6C).op_code, OpCode::JMP);
    assert_eq!(instruction_template(0x6C).access_mode, AccessMode::Ind);
    assert_eq!(instruction_template(0xEA).op_code, OpCode::NOP);
    let all = instruction_templates();
    assert_eq!(all.len(), 256);
    assert_eq!(all[0x8D].op_code, OpCode::STA);
    assert_eq!(all[0x8D].access_mode, AccessMode::Abs);
    assert!(all.iter().enumerate().all(|(i, t)| t.code_point as usize == i));
}

#[test]
fn instruction_lengths() {
    assert_eq!(AccessMode::Imp.instruction_length(), 1);
    assert_eq!(AccessMode::Rel.instruction_length(), 2);
    assert_eq!(AccessMode::Ind.instruction_length(), 3);
}

#[test]
fn decode_immediate_and_absolute_indexed() {
    let mem = memory_with(0x8000, &[0xA9, 0x42]);
    let instruction = Instruction::from_memory(0xA9, CpuAddress::new(0x8000), 0, 0, &mem);
    assert_eq!(instruction.argument, Argument::Imm(0x42));
    assert!(!instruction.page_boundary_crossed);

    let mem = memory_with(0x8000, &[0xBD, 0xF0, 0x12]);
    let instruction = Instruction::from_memory(0xBD, CpuAddress::new(0x8000), 0x20, 0, &mem);
    assert_eq!(instruction.argument, Argument::Addr(CpuAddress::new(0x1310)));
    assert!(instruction.page_boundary_crossed);
}

#[test]
fn decode_relative_branch_backwards() {
    let mem = memory_with(0x8010, &[0xD0, 0xFC]);
    let instruction = Instruction::from_memory(0xD0, CpuAddress::new(0x8010), 0, 0, &mem);
    assert_eq!(instruction.template.op_code, OpCode::BNE);
    assert_eq!(instruction.argument, Argument::Addr(CpuAddress::new(0x800E)));
}

#[test]
fn decode_indirect_jump_wraps_within_page() {
    let mut mem = memory_with(0x8000, &[0x6C, 0xFF, 0x10]);
    mem[0x10FF] = 0x34;
    mem[0x1000] = 0x12;
    mem[0x1100] = 0x99;
    let instruction = Instruction::from_memory(0x6C, CpuAddress::new(0x8000), 0, 0, &mem);
    assert_eq!(instruction.argument, Argument::Addr(CpuAddress::new(0x1234)));
}

#[test]
fn decode_indirect_indexed() {
    let mut mem = memory_with(0x8000, &[0xB1, 0x10]);
    mem[0x10] = 0xFF;
    mem[0x11] = 0x20;
    let instruction = Instruction::from_memory(0xB1, CpuAddress::new(0x8000), 0, 1, &mem);
    assert_eq!(instruction.argument, Argument::Addr(CpuAddress::new(0x2100)));
    assert!(instruction.page_boundary_crossed);

    let mut mem = memory_with(0x8000, &[0xA1, 0xFE]);
    mem[0x01] = 0x00;
    mem[0x02] = 0x30;
    let instruction = Instruction::from_memory(0xA1, CpuAddress::new(0x8000), 3, 0, &mem);
    assert_eq!(instruction.argument, Argument::Addr(CpuAddress::new(0x3000)));
}
