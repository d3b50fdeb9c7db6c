use vstd::prelude::*;

use crate::cpu::address::{has_type, mirrored};

verus! {

/// A 16-bit CPU address, with RAM and PPU register mirrors folded onto their true ranges.
pub struct Address(u16);

impl View for Address {
    type V = u16;

    closed spec fn view(&self) -> u16 {
        self.0
    }
}

/// The region that an address belongs to.
pub open spec fn spec_region(value: u16) -> AddressType {
    if value <= 0x07FF {
        AddressType::InternalRAM
    } else if 0x2000 <= value <= 0x2007 {
        AddressType::PpuRegister
    } else if 0x4000 <= value <= 0x4017 {
        AddressType::ApuRegister
    } else if 0x4018 <= value <= 0x401F {
        AddressType::DisabledApuRegister
    } else if 0x4020 <= value <= 0xFFF9 {
        AddressType::Cartridge
    } else {
        AddressType::InterruptVector
    }
}

impl Address {
    /// The address lies in a true range: every address is made by `new`.
    #[verifier::type_invariant]
    spec fn in_true_range(self) -> bool {
        has_type(self.0)
    }

    pub fn new(value: u16) -> (address: Address)
        ensures address@ == mirrored(value),
    {
        let mut value = value;
        if value < 0x2000 {
            // Map RAM mirrors to the true RAM range.
            value = value % 0x0800;
        } else if value >= 0x2000 && value < 0x4000 {
            // Map PPU register mirrors to the true PPU register range.
            value = (value % 0x8) + 0x2000;
        }

        Address(value)
    }

    pub fn to_raw(&self) -> (raw: u16)
        ensures raw == self@,
    {
        self.0
    }

    /// The region the address belongs to.
    pub fn get_type(&self) -> (address_type: AddressType)
        ensures address_type == spec_region(self@),
    {
        proof { use_type_invariant(self); }
        if self.0 <= 0x07FF {
            AddressType::InternalRAM
        } else if 0x2000 <= self.0 && self.0 <= 0x2007 {
            AddressType::PpuRegister
        } else if 0x4000 <= self.0 && self.0 <= 0x4017 {
            AddressType::ApuRegister
        } else if 0x4018 <= self.0 && self.0 <= 0x401F {
            AddressType::DisabledApuRegister
        } else if 0x4020 <= self.0 && self.0 <= 0xFFF9 {
            AddressType::Cartridge
        } else {
            AddressType::InterruptVector
        }
    }
}

/// The regions of the CPU address space.
#[derive(PartialEq, Eq, Clone, Copy, Debug, Structural)]
pub enum AddressType {
    InternalRAM,
    PpuRegister,
    ApuRegister,
    DisabledApuRegister,
    Cartridge,
    InterruptVector,
}

} // verus!
