use vstd::prelude::*;

use crate::util::{lemma_pack8_bits, lemma_pack8_of_bits, pack8, pack_bools, unpack_bools};

verus! {

/// The processor status flags of the 6502.
#[derive(PartialEq, Eq, Clone, Copy, Debug, Structural)]
pub struct Status {
    pub negative: bool,
    pub overflow: bool,
    pub decimal: bool,
    pub interrupts_disabled: bool,
    pub zero: bool,
    pub carry: bool,
}

impl Status {
    /// The status byte with bits 5 and 4 set to `bit5` and `bit4`.
    pub open spec fn spec_byte(self, bit5: bool, bit4: bool) -> u8 {
        pack8(self.negative, self.overflow, bit5, bit4, self.decimal, self.interrupts_disabled, self.zero, self.carry)
    }

    /// The status that a byte encodes: bits 7, 6, 3, 2, 1 and 0 are N, V, D, I, Z and C.
    pub open spec fn spec_from_byte(value: u8) -> Status {
        Status {
            negative: value & 0x80 != 0,
            overflow: value & 0x40 != 0,
            decimal: value & 0x08 != 0,
            interrupts_disabled: value & 0x04 != 0,
            zero: value & 0x02 != 0,
            carry: value & 0x01 != 0,
        }
    }

    /// The flags as text, from N down to C, with '_' for a clear flag and for bits 5 and 4.
    pub open spec fn spec_text(self) -> Seq<char> {
        seq![
            if self.negative { 'N' } else { '_' },
            if self.overflow { 'V' } else { '_' },
            '_',
            '_',
            if self.decimal { 'D' } else { '_' },
            if self.interrupts_disabled { 'I' } else { '_' },
            if self.zero { 'Z' } else { '_' },
            if self.carry { 'C' } else { '_' },
        ]
    }

    /// The power-up state: only interrupts are disabled.
    pub fn startup() -> (status: Status)
        ensures
            status == (Status {
                negative: false,
                overflow: false,
                decimal: false,
                interrupts_disabled: true,
                zero: false,
                carry: false,
            }),
    {
        Status {
            // https://wiki.nesdev.org/w/index.php?title=CPU_power_up_state
            negative: false,
            overflow: false,
            decimal: false,
            interrupts_disabled: true,
            zero: false,
            carry: false,
        }
    }

    pub fn from_byte(value: u8) -> (status: Status)
        ensures status == Status::spec_from_byte(value),
    {
        let bools = unpack_bools(value);
        let mut status = Status::startup();
        status.negative = bools[0];
        status.overflow = bools[1];
        status.decimal = bools[4];
        status.interrupts_disabled = bools[5];
        status.zero = bools[6];
        status.carry = bools[7];
        status
    }

    /// The byte as the status register holds it: bits 5 and 4 clear.
    pub fn to_register_byte(self) -> (byte: u8)
        ensures byte == self.spec_byte(false, false),
    {
        pack_bools([
            self.negative,
            self.overflow,
            false,
            false,
            self.decimal,
            self.interrupts_disabled,
            self.zero,
            self.carry,
        ])
    }

    /// The byte pushed by PHP and BRK: bits 5 and 4 set.
    pub fn to_instruction_byte(self) -> (byte: u8)
        ensures byte == self.spec_byte(true, true),
    {
        pack_bools([
            self.negative,
            self.overflow,
            true,
            true,
            self.decimal,
            self.interrupts_disabled,
            self.zero,
            self.carry,
        ])
    }

    /// The byte pushed by an NMI or IRQ: bit 5 set, bit 4 clear.
    pub fn to_interrupt_byte(self) -> (byte: u8)
        ensures byte == self.spec_byte(true, false),
    {
        pack_bools([
            self.negative,
            self.overflow,
            true,
            false,
            self.decimal,
            self.interrupts_disabled,
            self.zero,
            self.carry,
        ])
    }

    /// The flags as text, such as "N___D__C".
    pub fn to_string(self) -> (text: String)
        ensures text@ == self.spec_text(),
    {
        proof {
            reveal_strlit("N");
            reveal_strlit("V");
            reveal_strlit("D");
            reveal_strlit("I");
            reveal_strlit("Z");
            reveal_strlit("C");
            reveal_strlit("_");
            reveal_strlit("__");
        }
        let mut text = String::new();
        if self.negative { text.append("N"); } else { text.append("_"); }
        if self.overflow { text.append("V"); } else { text.append("_"); }
        text.append("__");
        if self.decimal { text.append("D"); } else { text.append("_"); }
        if self.interrupts_disabled { text.append("I"); } else { text.append("_"); }
        if self.zero { text.append("Z"); } else { text.append("_"); }
        if self.carry { text.append("C"); } else { text.append("_"); }
        assert(text@ =~= self.spec_text());
        text
    }
}

/// Whatever bits 5 and 4 hold, reading a status byte back gives the status it was made from.
pub proof fn lemma_status_byte_round_trip(status: Status, bit5: bool, bit4: bool)
    ensures Status::spec_from_byte(status.spec_byte(bit5, bit4)) == status,
{
    lemma_pack8_bits(status.negative, status.overflow, bit5, bit4, status.decimal,
        status.interrupts_disabled, status.zero, status.carry);
}

/// Writing the status read from a byte gives the byte back, with bits 5 and 4 replaced.
pub proof fn lemma_byte_status_round_trip(value: u8, bit5: bool, bit4: bool)
    ensures
        Status::spec_from_byte(value).spec_byte(bit5, bit4)
            == pack8(value & 0x80 != 0, value & 0x40 != 0, bit5, bit4, value & 0x08 != 0,
                value & 0x04 != 0, value & 0x02 != 0, value & 0x01 != 0),
        Status::spec_from_byte(value).spec_byte(value & 0x20 != 0, value & 0x10 != 0) == value,
{
    lemma_pack8_of_bits(value);
}

} // verus!
