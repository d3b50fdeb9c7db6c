use vstd::prelude::*;

use crate::memory::cpu_address::CpuAddress;

verus! {

/// The operation and addressing mode of each op code: row `code % 0x20`, column `code / 0x20`.
pub const CODES: [[(OpCode, AccessMode); 8]; 32] = [
    [(OpCode::BRK, AccessMode::Imp), (OpCode::JSR, AccessMode::Abs), (OpCode::RTI, AccessMode::Imp), (OpCode::RTS, AccessMode::Imp), (OpCode::NOP, AccessMode::Imm), (OpCode::LDY, AccessMode::Imm), (OpCode::CPY, AccessMode::Imm), (OpCode::CPX, AccessMode::Imm)],
    [(OpCode::ORA, AccessMode::IzX), (OpCode::AND, AccessMode::IzX), (OpCode::EOR, AccessMode::IzX), (OpCode::ADC, AccessMode::IzX), (OpCode::STA, AccessMode::IzX), (OpCode::LDA, AccessMode::IzX), (OpCode::CMP, AccessMode::IzX), (OpCode::SBC, AccessMode::IzX)],
    [(OpCode::JAM, AccessMode::Imp), (OpCode::JAM, AccessMode::Imp), (OpCode::JAM, AccessMode::Imp), (OpCode::JAM, AccessMode::Imp), (OpCode::NOP, AccessMode::Imm), (OpCode::LDX, AccessMode::Imm), (OpCode::NOP, AccessMode::Imm), (OpCode::NOP, AccessMode::Imm)],
    [(OpCode::SLO, AccessMode::IzX), (OpCode::RLA, AccessMode::IzX), (OpCode::SRE, AccessMode::IzX), (OpCode::RRA, AccessMode::IzX), (OpCode::SAX, AccessMode::IzX), (OpCode::LAX, AccessMode::IzX), (OpCode::DCP, AccessMode::IzX), (OpCode::ISC, AccessMode::IzX)],
    [(OpCode::NOP, AccessMode::ZP), (OpCode::BIT, AccessMode::ZP), (OpCode::NOP, AccessMode::ZP), (OpCode::NOP, AccessMode::ZP), (OpCode::STY, AccessMode::ZP), (OpCode::LDY, AccessMode::ZP), (OpCode::CPY, AccessMode::ZP), (OpCode::CPX, AccessMode::ZP)],
    [(OpCode::ORA, AccessMode::ZP), (OpCode::AND, AccessMode::ZP), (OpCode::EOR, AccessMode::ZP), (OpCode::ADC, AccessMode::ZP), (OpCode::STA, AccessMode::ZP), (OpCode::LDA, AccessMode::ZP), (OpCode::CMP, AccessMode::ZP), (OpCode::SBC, AccessMode::ZP)],
    [(OpCode::ASL, AccessMode::ZP), (OpCode::ROL, AccessMode::ZP), (OpCode::LSR, AccessMode::ZP), (OpCode::ROR, AccessMode::ZP), (OpCode::STX, AccessMode::ZP), (OpCode::LDX, AccessMode::ZP), (OpCode::DEC, AccessMode::ZP), (OpCode::INC, AccessMode::ZP)],
    [(OpCode::SLO, AccessMode::ZP), (OpCode::RLA, AccessMode::ZP), (OpCode::SRE, AccessMode::ZP), (OpCode::RRA, AccessMode::ZP), (OpCode::SAX, AccessMode::ZP), (OpCode::LAX, AccessMode::ZP), (OpCode::DCP, AccessMode::ZP), (OpCode::ISC, AccessMode::ZP)],
    [(OpCode::PHP, AccessMode::Imp), (OpCode::PLP, AccessMode::Imp), (OpCode::PHA, AccessMode::Imp), (OpCode::PLA, AccessMode::Imp), (OpCode::DEY, AccessMode::Imp), (OpCode::TAY, AccessMode::Imp), (OpCode::INY, AccessMode::Imp), (OpCode::INX, AccessMode::Imp)],
    [(OpCode::ORA, AccessMode::Imm), (OpCode::AND, AccessMode::Imm), (OpCode::EOR, AccessMode::Imm), (OpCode::ADC, AccessMode::Imm), (OpCode::NOP, AccessMode::Imm), (OpCode::LDA, AccessMode::Imm), (OpCode::CMP, AccessMode::Imm), (OpCode::SBC, AccessMode::Imm)],
    [(OpCode::ASL, AccessMode::Imp), (OpCode::ROL, AccessMode::Imp), (OpCode::LSR, AccessMode::Imp), (OpCode::ROR, AccessMode::Imp), (OpCode::TXA, AccessMode::Imp), (OpCode::TAX, AccessMode::Imp), (OpCode::DEX, AccessMode::Imp), (OpCode::NOP, AccessMode::Imp)],
    [(OpCode::ANC, AccessMode::Imm), (OpCode::ANC, AccessMode::Imm), (OpCode::ALR, AccessMode::Imm), (OpCode::ARR, AccessMode::Imm), (OpCode::XAA, AccessMode::Imm), (OpCode::LAX, AccessMode::Imm), (OpCode::AXS, AccessMode::Imm), (OpCode::SBC, AccessMode::Imm)],
    [(OpCode::NOP, AccessMode::Abs), (OpCode::BIT, AccessMode::Abs), (OpCode::JMP, AccessMode::Abs), (OpCode::JMP, AccessMode::Ind), (OpCode::STY, AccessMode::Abs), (OpCode::LDY, AccessMode::Abs), (OpCode::CPY, AccessMode::Abs), (OpCode::CPX, AccessMode::Abs)],
    [(OpCode::ORA, AccessMode::Abs), (OpCode::AND, AccessMode::Abs), (OpCode::EOR, AccessMode::Abs), (OpCode::ADC, AccessMode::Abs), (OpCode::STA, AccessMode::Abs), (OpCode::LDA, AccessMode::Abs), (OpCode::CMP, AccessMode::Abs), (OpCode::SBC, AccessMode::Abs)],
    [(OpCode::ASL, AccessMode::Abs), (OpCode::ROL, AccessMode::Abs), (OpCode::LSR, AccessMode::Abs), (OpCode::ROR, AccessMode::Abs), (OpCode::STX, AccessMode::Abs), (OpCode::LDX, AccessMode::Abs), (OpCode::DEC, AccessMode::Abs), (OpCode::INC, AccessMode::Abs)],
    [(OpCode::SLO, AccessMode::Abs), (OpCode::RLA, AccessMode::Abs), (OpCode::SRE, AccessMode::Abs), (OpCode::RRA, AccessMode::Abs), (OpCode::SAX, AccessMode::Abs), (OpCode::LAX, AccessMode::Abs), (OpCode::DCP, AccessMode::Abs), (OpCode::ISC, AccessMode::Abs)],
    [(OpCode::BPL, AccessMode::Rel), (OpCode::BMI, AccessMode::Rel), (OpCode::BVC, AccessMode::Rel), (OpCode::BVS, AccessMode::Rel), (OpCode::BCC, AccessMode::Rel), (OpCode::BCS, AccessMode::Rel), (OpCode::BNE, AccessMode::Rel), (OpCode::BEQ, AccessMode::Rel)],
    [(OpCode::ORA, AccessMode::IzY), (OpCode::AND, AccessMode::IzY), (OpCode::EOR, AccessMode::IzY), (OpCode::ADC, AccessMode::IzY), (OpCode::STA, AccessMode::IzY), (OpCode::LDA, AccessMode::IzY), (OpCode::CMP, AccessMode::IzY), (OpCode::SBC, AccessMode::IzY)],
    [(OpCode::JAM, AccessMode::Imp), (OpCode::JAM, AccessMode::Imp), (OpCode::JAM, AccessMode::Imp), (OpCode::JAM, AccessMode::Imp), (OpCode::JAM, AccessMode::Imp), (OpCode::JAM, AccessMode::Imp), (OpCode::JAM, AccessMode::Imp), (OpCode::JAM, AccessMode::Imp)],
    [(OpCode::SLO, AccessMode::IzY), (OpCode::RLA, AccessMode::IzY), (OpCode::SRE, AccessMode::IzY), (OpCode::RRA, AccessMode::IzY), (OpCode::AHX, AccessMode::IzY), (OpCode::LAX, AccessMode::IzY), (OpCode::DCP, AccessMode::IzY), (OpCode::ISC, AccessMode::IzY)],
    [(OpCode::NOP, AccessMode::ZPX), (OpCode::NOP, AccessMode::ZPX), (OpCode::NOP, AccessMode::ZPX), (OpCode::NOP, AccessMode::ZPX), (OpCode::STY, AccessMode::ZPX), (OpCode::LDY, AccessMode::ZPX), (OpCode::NOP, AccessMode::ZPX), (OpCode::NOP, AccessMode::ZPX)],
    [(OpCode::ORA, AccessMode::ZPX), (OpCode::AND, AccessMode::ZPX), (OpCode::EOR, AccessMode::ZPX), (OpCode::ADC, AccessMode::ZPX), (OpCode::STA, AccessMode::ZPX), (OpCode::LDA, AccessMode::ZPX), (OpCode::CMP, AccessMode::ZPX), (OpCode::SBC, AccessMode::ZPX)],
    [(OpCode::ASL, AccessMode::ZPX), (OpCode::ROL, AccessMode::ZPX), (OpCode::LSR, AccessMode::ZPX), (OpCode::ROR, AccessMode::ZPX), (OpCode::STX, AccessMode::ZPY), (OpCode::LDX, AccessMode::ZPY), (OpCode::DEC, AccessMode::ZPX), (OpCode::INC, AccessMode::ZPX)],
    [(OpCode::SLO, AccessMode::ZPX), (OpCode::RLA, AccessMode::ZPX), (OpCode::SRE, AccessMode::ZPX), (OpCode::RRA, AccessMode::ZPX), (OpCode::SAX, AccessMode::ZPY), (OpCode::LAX, AccessMode::ZPY), (OpCode::DCP, AccessMode::ZPX), (OpCode::ISC, AccessMode::ZPX)],
    [(OpCode::CLC, AccessMode::Imp), (OpCode::SEC, AccessMode::Imp), (OpCode::CLI, AccessMode::Imp), (OpCode::SEI, AccessMode::Imp), (OpCode::TYA, AccessMode::Imp), (OpCode::CLV, AccessMode::Imp), (OpCode::CLD, AccessMode::Imp), (OpCode::SED, AccessMode::Imp)],
    [(OpCode::ORA, AccessMode::AbY), (OpCode::AND, AccessMode::AbY), (OpCode::EOR, AccessMode::AbY), (OpCode::ADC, AccessMode::AbY), (OpCode::STA, AccessMode::AbY), (OpCode::LDA, AccessMode::AbY), (OpCode::CMP, AccessMode::AbY), (OpCode::SBC, AccessMode::AbY)],
    [(OpCode::NOP, AccessMode::Imp), (OpCode::NOP, AccessMode::Imp), (OpCode::NOP, AccessMode::Imp), (OpCode::NOP, AccessMode::Imp), (OpCode::TXS, AccessMode::Imp), (OpCode::TSX, AccessMode::Imp), (OpCode::NOP, AccessMode::Imp), (OpCode::NOP, AccessMode::Imp)],
    [(OpCode::SLO, AccessMode::AbY), (OpCode::RLA, AccessMode::AbY), (OpCode::SRE, AccessMode::AbY), (OpCode::RRA, AccessMode::AbY), (OpCode::TAS, AccessMode::AbY), (OpCode::LAS, AccessMode::AbY), (OpCode::DCP, AccessMode::AbY), (OpCode::ISC, AccessMode::AbY)],
    [(OpCode::NOP, AccessMode::AbX), (OpCode::NOP, AccessMode::AbX), (OpCode::NOP, AccessMode::AbX), (OpCode::NOP, AccessMode::AbX), (OpCode::SHY, AccessMode::AbX), (OpCode::LDY, AccessMode::AbX), (OpCode::NOP, AccessMode::AbX), (OpCode::NOP, AccessMode::AbX)],
    [(OpCode::ORA, AccessMode::AbX), (OpCode::AND, AccessMode::AbX), (OpCode::EOR, AccessMode::AbX), (OpCode::ADC, AccessMode::AbX), (OpCode::STA, AccessMode::AbX), (OpCode::LDA, AccessMode::AbX), (OpCode::CMP, AccessMode::AbX), (OpCode::SBC, AccessMode::AbX)],
    [(OpCode::ASL, AccessMode::AbX), (OpCode::ROL, AccessMode::AbX), (OpCode::LSR, AccessMode::AbX), (OpCode::ROR, AccessMode::AbX), (OpCode::SHX, AccessMode::AbY), (OpCode::LDX, AccessMode::AbY), (OpCode::DEC, AccessMode::AbX), (OpCode::INC, AccessMode::AbX)],
    [(OpCode::SLO, AccessMode::AbX), (OpCode::RLA, AccessMode::AbX), (OpCode::SRE, AccessMode::AbX), (OpCode::RRA, AccessMode::AbX), (OpCode::AHX, AccessMode::AbY), (OpCode::LAX, AccessMode::AbY), (OpCode::DCP, AccessMode::AbX), (OpCode::ISC, AccessMode::AbX)],
];

/// The template of an op code, as the table gives it.
pub open spec fn spec_template(code_point: u8) -> InstructionTemplate {
    let entry = CODES[code_point as int % 0x20][code_point as int / 0x20];
    InstructionTemplate { code_point: code_point, op_code: entry.0, access_mode: entry.1 }
}

/// Looks up the template of an op code.
pub fn instruction_template(code_point: u8) -> (template: InstructionTemplate)
    ensures template == spec_template(code_point),
{
    let i = (code_point % 0x20) as usize;
    let j = (code_point / 0x20) as usize;
    let entry = CODES[i][j];
    InstructionTemplate::from_tuple(code_point, entry)
}

/// The templates of all 256 op codes, indexed by op code.
pub fn instruction_templates() -> (templates: Vec<InstructionTemplate>)
    ensures
        templates@.len() == 256,
        forall|i: int| 0 <= i < 256 ==> #[trigger] templates@[i] == spec_template(i as u8),
{
    let mut result: Vec<InstructionTemplate> = Vec::new();
    let mut index: u16 = 0;
    while index < 256
        invariant
            index <= 256,
            result@.len() == index,
            forall|i: int| 0 <= i < index ==> #[trigger] result@[i] == spec_template(i as u8),
        decreases 256 - index,
    {
        result.push(instruction_template(index as u8));
        index = index + 1;
    }
    result
}

/// A decoded instruction: its template, its argument, and whether indexing crossed a page.
#[derive(Clone, Copy, Debug, PartialEq, Eq, Structural)]
pub struct Instruction {
    pub template: InstructionTemplate,
    pub argument: Argument,
    pub page_boundary_crossed: bool,
}

/// The byte at an address of a 64 KiB memory image.
pub open spec fn peek(mem: Seq<u8>, address: int) -> u8 {
    mem[address % 0x10000]
}

/// The 16-bit value of a low and a high byte.
pub open spec fn word(low: u8, high: u8) -> int {
    high * 256 + low
}

/// The instruction that starts at `start` with the given op code, decoded against `mem`.
pub open spec fn spec_decode(op_code: u8, start: u16, x: u8, y: u8, mem: Seq<u8>) -> DecodedInstruction {
    let template = spec_template(op_code);
    let (argument, crossed) = spec_decode_argument(template.access_mode, start, x, y, mem);
    DecodedInstruction { template: template, argument: argument, page_boundary_crossed: crossed }
}

/// The argument of an instruction with the given addressing mode that starts at `start`, and
/// whether indexing crossed a page.
pub open spec fn spec_decode_argument(mode: AccessMode, start: u16, x: u8, y: u8, mem: Seq<u8>) -> (ArgumentValue, bool) {
    let low = peek(mem, start + 1);
    let high = peek(mem, start + 2);
    match mode {
        AccessMode::Imp => (ArgumentValue::Imp, false),
        AccessMode::Imm => (ArgumentValue::Imm(low), false),
        AccessMode::ZP => (ArgumentValue::Addr(low as int), false),
        AccessMode::ZPX => (ArgumentValue::Addr((low + x) % 256), false),
        AccessMode::ZPY => (ArgumentValue::Addr((low + y) % 256), false),
        AccessMode::Abs => (ArgumentValue::Addr(word(low, high)), false),
        AccessMode::AbX => {
            let address = (word(low, high) + x) % 0x10000;
            (ArgumentValue::Addr(address), word(low, high) / 256 != address / 256)
        }
        AccessMode::AbY => {
            let address = (word(low, high) + y) % 0x10000;
            (ArgumentValue::Addr(address), word(low, high) / 256 != address / 256)
        }
        AccessMode::Rel => {
            let offset: int = if low < 128 { low as int } else { low - 256 };
            (ArgumentValue::Addr(((start + offset) % 0x10000 + 2) % 0x10000), false)
        }
        AccessMode::Ind => (ArgumentValue::Addr(word(
            peek(mem, word(low, high)),
            peek(mem, word(((low + 1) % 256) as u8, high)),
        )), false),
        AccessMode::IzX => {
            let pointer = (low + x) % 256;
            (ArgumentValue::Addr(word(peek(mem, pointer), peek(mem, (pointer + 1) % 256))), false)
        }
        AccessMode::IzY => {
            let base = word(peek(mem, low as int), peek(mem, (low + 1) % 256));
            let address = (base + y) % 0x10000;
            (ArgumentValue::Addr(address), base / 256 != address / 256)
        }
    }
}

/// The target of a relative branch: the offset byte is signed, and counts from the end of the
/// two-byte instruction.
fn relative_target(start_address: CpuAddress, low: u8) -> (address: CpuAddress)
    ensures
        address@ == ({
            let offset: int = if low < 128 { low as int } else { low - 256 };
            ((start_address@ + offset) % 0x10000 + 2) % 0x10000
        }),
{
    assert((low as i8) as int == if low < 128 { low as int } else { low - 256 }) by (bit_vector);
    start_address.offset(low as i8).advance(AccessMode::Rel.instruction_length())
}

/// Decodes the argument of an instruction with the given addressing mode that starts at
/// `start_address`, and whether indexing crossed a page.
#[verifier::rlimit(100)]
#[verifier::spinoff_prover]
fn decode_argument(mode: AccessMode, start_address: CpuAddress, x_index: u8, y_index: u8, mem: &[u8]) -> (decoded: (Argument, bool))
    requires mem@.len() == 0x10000,
    ensures (decoded.0.value(), decoded.1) == spec_decode_argument(mode, start_address@, x_index, y_index, mem@),
{
        let low = mem[start_address.advance(1).to_raw() as usize];
        let high = mem[start_address.advance(2).to_raw() as usize];

        let mut page_boundary_crossed = false;

        let argument = match mode {
            AccessMode::Imp => Argument::Imp,
            AccessMode::Imm => Argument::Imm(low),
            AccessMode::ZP => {
                let address = CpuAddress::zero_page(low);
                Argument::Addr(address)
            }
            AccessMode::ZPX => {
                let address = CpuAddress::zero_page(low.wrapping_add(x_index));
                Argument::Addr(address)
            }
            AccessMode::ZPY => {
                let address = CpuAddress::zero_page(low.wrapping_add(y_index));
                Argument::Addr(address)
            }
            AccessMode::Abs => {
                let address = CpuAddress::from_low_high(low, high);
                Argument::Addr(address)
            }
            AccessMode::AbX => {
                let start_address = CpuAddress::from_low_high(low, high);
                let address = start_address.advance(x_index);
                page_boundary_crossed = start_address.page() != address.page();
                Argument::Addr(address)
            }
            AccessMode::AbY => {
                let start_address = CpuAddress::from_low_high(low, high);
                let address = start_address.advance(y_index);
                page_boundary_crossed = start_address.page() != address.page();
                Argument::Addr(address)
            }
            AccessMode::Rel => Argument::Addr(relative_target(start_address, low)),
            AccessMode::Ind => {
                let first = CpuAddress::from_low_high(low, high);
                let second = CpuAddress::from_low_high(low.wrapping_add(1), high);
                let address = CpuAddress::from_low_high(
                    mem[first.to_raw() as usize],
                    mem[second.to_raw() as usize],
                );
                Argument::Addr(address)
            }
            AccessMode::IzX => {
                let low = low.wrapping_add(x_index);
                let address = CpuAddress::from_low_high(
                    mem[CpuAddress::zero_page(low).to_raw() as usize],
                    mem[CpuAddress::zero_page(low.wrapping_add(1)).to_raw() as usize],
                );
                Argument::Addr(address)
            }
            AccessMode::IzY => {
                let start_address = CpuAddress::from_low_high(
                    mem[CpuAddress::zero_page(low).to_raw() as usize],
                    mem[CpuAddress::zero_page(low.wrapping_add(1)).to_raw() as usize],
                );
                let address = start_address.advance(y_index);
                page_boundary_crossed = start_address.page() != address.page();
                Argument::Addr(address)
            }
        };

        (argument, page_boundary_crossed)
}

/// An argument with its address as a plain integer.
pub enum ArgumentValue {
    Imp,
    Imm(u8),
    Addr(int),
}

/// A decoded instruction with its argument as a plain value.
pub struct DecodedInstruction {
    pub template: InstructionTemplate,
    pub argument: ArgumentValue,
    pub page_boundary_crossed: bool,
}

impl Argument {
    /// The argument with its address as a plain integer.
    pub open spec fn value(self) -> ArgumentValue {
        match self {
            Argument::Imp => ArgumentValue::Imp,
            Argument::Imm(value) => ArgumentValue::Imm(value),
            Argument::Addr(address) => ArgumentValue::Addr(address@ as int),
        }
    }
}

impl Instruction {
    /// The instruction with its argument as a plain value.
    pub open spec fn decoded(self) -> DecodedInstruction {
        DecodedInstruction {
            template: self.template,
            argument: self.argument.value(),
            page_boundary_crossed: self.page_boundary_crossed,
        }
    }
}

impl Instruction {
    /// Decodes the instruction at `start_address` from a 64 KiB memory image.
    pub fn from_memory(
        op_code: u8,
        start_address: CpuAddress,
        x_index: u8,
        y_index: u8,
        mem: &[u8],
    ) -> (instruction: Instruction)
        requires mem@.len() == 0x10000,
        ensures instruction.decoded() == spec_decode(op_code, start_address@, x_index, y_index, mem@),
    {
        let template = instruction_template(op_code);
        let (argument, page_boundary_crossed) =
            decode_argument(template.access_mode, start_address, x_index, y_index, mem);
        Instruction { template, argument, page_boundary_crossed }
    }
}

/// The argument of an instruction.
#[derive(Clone, Copy, Debug, PartialEq, Eq, Structural)]
pub enum Argument {
    Imp,
    Imm(u8),
    Addr(CpuAddress),
}

/// An op code's operation and addressing mode.
#[derive(Clone, Copy, Debug, PartialEq, Eq, Structural)]
pub struct InstructionTemplate {
    pub code_point: u8,
    pub op_code: OpCode,
    pub access_mode: AccessMode,
}

impl InstructionTemplate {
    fn from_tuple(code_point: u8, tuple: (OpCode, AccessMode)) -> (template: InstructionTemplate)
        ensures template == (InstructionTemplate { code_point: code_point, op_code: tuple.0, access_mode: tuple.1 }),
    {
        InstructionTemplate {
            code_point,
            op_code: tuple.0,
            access_mode: tuple.1,
        }
    }
}

#[allow(clippy::upper_case_acronyms)]
#[derive(PartialEq, Eq, Clone, Copy, Debug, Structural)]
pub enum OpCode {
    // Logical/Arithmetic
    ORA,
    AND,
    EOR,
    ADC,
    SBC,
    CMP,
    CPX,
    CPY,
    DEC,
    DEX,
    DEY,
    INC,
    INX,
    INY,
    ASL,
    ROL,
    LSR,
    ROR,

    /* Move */
    LDA,
    STA,
    LDX,
    STX,
    LDY,
    STY,
    TAX,
    TXA,
    TAY,
    TYA,
    TSX,
    TXS,
    // Pull accumulator from stack.
    PLA,
    // Push accumulator to stack.
    PHA,
    // Pull status from stack.
    PLP,
    // Push status from stack.
    PHP,

    /* Jump/Flag */
    BPL,
    BMI,
    BVC,
    BVS,
    BCC,
    BCS,
    BNE,
    BEQ,
    BRK,
    RTI,
    JSR,
    RTS,
    JMP,
    BIT,
    CLC,
    SEC,
    CLD,
    SED,
    CLI,
    SEI,
    CLV,
    NOP,

    // Undocumented.
    SLO,
    RLA,
    SRE,
    RRA,
    SAX,
    LAX,
    DCP,
    ISC,
    // a.k.a. AAC
    ANC,
    ALR,
    ARR,
    XAA,
    AXS,
    AHX,
    // a.k.a. SYA
    SHY,
    // a.k.a. SXA
    SHX,
    TAS,
    LAS,

    JAM,
}

#[allow(clippy::upper_case_acronyms)]
#[derive(PartialEq, Eq, Clone, Copy, Debug, Structural)]
pub enum AccessMode {
    Imp,
    Imm,
    ZP,
    ZPX,
    ZPY,
    // Absolute addressing.
    Abs,
    AbX,
    AbY,
    Rel,
    Ind,
    IzX,
    IzY,
}

impl AccessMode {
    pub open spec fn spec_instruction_length(self) -> u8 {
        match self {
            AccessMode::Imp => 1,
            AccessMode::Imm | AccessMode::ZP | AccessMode::ZPX | AccessMode::ZPY | AccessMode::Rel
                | AccessMode::IzX | AccessMode::IzY => 2,
            AccessMode::Abs | AccessMode::AbX | AccessMode::AbY | AccessMode::Ind => 3,
        }
    }

    /// The number of bytes an instruction with this addressing mode takes.
    pub fn instruction_length(self) -> (length: u8)
        ensures length == self.spec_instruction_length(),
    {
        match self {
            AccessMode::Imp => 1,
            AccessMode::Imm | AccessMode::ZP | AccessMode::ZPX | AccessMode::ZPY | AccessMode::Rel
                | AccessMode::IzX | AccessMode::IzY => 2,
            AccessMode::Abs | AccessMode::AbX | AccessMode::AbY | AccessMode::Ind => 3,
        }
    }
}

/// Law of the indexed addressing modes: absolute,X and zero page,X add the X index to the
/// argument (modulo 0x10000, or within the zero page) and do not depend on Y; absolute,Y and zero
/// page,Y add the Y index and do not depend on X; an absolute index crosses a page exactly when
/// the low byte plus the index passes 255.
#[verifier::spinoff_prover]
pub proof fn lemma_indexed_addressing(start: u16, x: u8, y: u8, other: u8, mem: Seq<u8>)
    ensures
        ({
            let low = peek(mem, start + 1);
            let high = peek(mem, start + 2);
            &&& spec_decode_argument(AccessMode::AbX, start, x, y, mem)
                == (ArgumentValue::Addr((word(low, high) + x) % 0x10000), low + x > 255)
            &&& spec_decode_argument(AccessMode::AbY, start, x, y, mem)
                == (ArgumentValue::Addr((word(low, high) + y) % 0x10000), low + y > 255)
            &&& spec_decode_argument(AccessMode::ZPX, start, x, y, mem).0 == ArgumentValue::Addr((low + x) % 256)
            &&& spec_decode_argument(AccessMode::ZPY, start, x, y, mem).0 == ArgumentValue::Addr((low + y) % 256)
            &&& spec_decode_argument(AccessMode::AbX, start, x, other, mem) == spec_decode_argument(AccessMode::AbX, start, x, y, mem)
            &&& spec_decode_argument(AccessMode::AbY, start, other, y, mem) == spec_decode_argument(AccessMode::AbY, start, x, y, mem)
            &&& spec_decode_argument(AccessMode::ZPX, start, x, other, mem) == spec_decode_argument(AccessMode::ZPX, start, x, y, mem)
            &&& spec_decode_argument(AccessMode::ZPY, start, other, y, mem) == spec_decode_argument(AccessMode::ZPY, start, x, y, mem)
            &&& spec_decode_argument(AccessMode::IzY, start, other, y, mem) == spec_decode_argument(AccessMode::IzY, start, x, y, mem)
            &&& spec_decode_argument(AccessMode::IzX, start, x, other, mem) == spec_decode_argument(AccessMode::IzX, start, x, y, mem)
            &&& spec_decode_argument(AccessMode::Abs, start, other, other, mem) == spec_decode_argument(AccessMode::Abs, start, x, y, mem)
        }),
{
    let low = peek(mem, start + 1);
    let high = peek(mem, start + 2);
    lemma_index_crossing(low, high, x);
    lemma_index_crossing(low, high, y);
}

/// Adding an index to an address moves it to another page exactly when the low byte plus the
/// index passes 255.
proof fn lemma_index_crossing(low: u8, high: u8, index: u8)
    ensures
        (word(low, high) / 256 != ((word(low, high) + index) % 0x10000) / 256) == (low + index > 255),
{
    let w = word(low, high);
    assert(w / 256 == high && w % 256 == low) by (nonlinear_arith)
        requires w == high * 256 + low, 0 <= low < 256, 0 <= high < 256;
    if low + index > 255 {
        if high == 255 {
            assert((w + index) % 0x10000 == low + index - 256);
        } else {
            assert((w + index) % 0x10000 == w + index);
            assert((w + index) / 256 == high + 1) by (nonlinear_arith)
                requires w == high * 256 + low, low + index > 255, low + index < 512;
        }
    } else {
        assert((w + index) % 0x10000 == w + index);
        assert((w + index) / 256 == high) by (nonlinear_arith)
            requires w == high * 256 + low, low + index <= 255, 0 <= low;
    }
}

/// Law of the indirect addressing modes: (indirect) reads the target's two bytes at the pointer,
/// the high byte from the next address within the pointer's page; (indirect,X) reads them from
/// the zero page at the operand plus X, wrapping in the zero page.
#[verifier::spinoff_prover]
pub proof fn lemma_indirect_addressing(start: u16, x: u8, y: u8, mem: Seq<u8>)
    ensures
        ({
            let low = peek(mem, start + 1);
            let high = peek(mem, start + 2);
            let pointer = (low + x) % 256;
            &&& spec_decode_argument(AccessMode::Ind, start, x, y, mem).0 == ArgumentValue::Addr(word(
                peek(mem, high * 256 + low),
                peek(mem, high * 256 + (low + 1) % 256),
            ))
            &&& spec_decode_argument(AccessMode::IzX, start, x, y, mem).0
                == ArgumentValue::Addr(word(peek(mem, pointer), peek(mem, (pointer + 1) % 256)))
        }),
{
}

/// Law of (indirect),Y: Y is added to the address read from the zero page at the operand,
/// wrapping at 0x10000, and a page is crossed exactly when its low byte plus Y passes 255.
#[verifier::spinoff_prover]
pub proof fn lemma_indirect_indexed_addressing(start: u16, x: u8, y: u8, mem: Seq<u8>)
    ensures
        ({
            let low = peek(mem, start + 1);
            let base_low = peek(mem, low as int);
            let base = word(base_low, peek(mem, (low + 1) % 256));
            spec_decode_argument(AccessMode::IzY, start, x, y, mem)
                == (ArgumentValue::Addr((base + y) % 0x10000), base_low + y > 255)
        }),
{
    let low = peek(mem, start + 1);
    lemma_index_crossing(peek(mem, low as int), peek(mem, (low + 1) % 256), y);
}

/// Law of relative addressing: a branch targets the end of its two bytes moved by the operand
/// read as a signed byte, wrapping at 0x10000.
#[verifier::spinoff_prover]
pub proof fn lemma_relative_addressing(start: u16, x: u8, y: u8, mem: Seq<u8>)
    ensures
        ({
            let low = peek(mem, start + 1);
            let offset: int = if low < 128 { low as int } else { low - 256 };
            spec_decode_argument(AccessMode::Rel, start, x, y, mem).0
                == ArgumentValue::Addr((start + 2 + offset + 0x10000) % 0x10000)
        }),
{
    let low = peek(mem, start + 1);
    let offset: int = if low < 128 { low as int } else { low - 256 };
    lemma_wrapped_offset(start as int, offset);
}

/// Moving by a signed byte then by two, each wrapping at 0x10000, is moving by their sum.
proof fn lemma_wrapped_offset(start: int, offset: int)
    requires
        0 <= start < 0x10000,
        -128 <= offset < 128,
    ensures
        ((start + offset) % 0x10000 + 2) % 0x10000 == (start + 2 + offset + 0x10000) % 0x10000,
{
    let t = start + offset;
    if t < 0 {
        assert(t % 0x10000 == t + 0x10000);
        assert((start + 2 + offset + 0x10000) % 0x10000 == (t + 0x10000 + 2) % 0x10000);
    } else if t >= 0x10000 {
        assert(t % 0x10000 == t - 0x10000);
        assert((t + 0x10000 + 2) % 0x10000 == (t - 0x10000 + 2) % 0x10000);
    } else {
        assert(t % 0x10000 == t);
        assert((t + 0x10000 + 2) % 0x10000 == (t + 2) % 0x10000);
    }
}
} // verus!
