use vstd::prelude::*;

use crate::util::text::{hex_digits, push_hex_digits, push_text, string_from_chars};

verus! {

/// The address that a raw CPU address stands for: internal RAM mirrors (0x0800 to 0x1FFF) fold
/// onto 0x0000 to 0x07FF, PPU register mirrors (0x2008 to 0x3FFF) onto 0x2000 to 0x2007; every
/// other value stands for itself.
pub open spec fn mirrored(value: u16) -> u16 {
    if value < 0x2000 {
        (value % 0x0800) as u16
    } else if value < 0x4000 {
        (value % 8 + 0x2000) as u16
    } else {
        value
    }
}

/// The address lies in one of the true (unmirrored) ranges: internal RAM, the PPU registers, or
/// 0x4000 and above.
pub open spec fn has_type(value: u16) -> bool {
    value <= 0x07FF || (0x2000 <= value <= 0x2007) || value >= 0x4000
}

/// The region that an address belongs to.
pub open spec fn spec_address_type(value: u16) -> AddressType {
    if value <= 0x07FF {
        AddressType::InternalRAM
    } else if 0x2000 <= value <= 0x2007 {
        AddressType::PpuRegister
    } else if 0x4000 <= value <= 0x4017 {
        AddressType::ApuRegister
    } else if 0x4018 <= value <= 0x401F {
        AddressType::DisabledApuRegister
    } else if 0x4020 <= value <= 0xFFF9 {
        AddressType::Cartridge
    } else {
        AddressType::InterruptVector
    }
}

/// A 16-bit CPU address.
#[derive(PartialEq, Eq, Clone, Copy, Debug, Structural)]
pub struct Address(u16);

impl View for Address {
    type V = u16;

    closed spec fn view(&self) -> u16 {
        self.0
    }
}

impl Address {
    pub fn new(value: u16) -> (address: Address)
        ensures address@ == mirrored(value),
    {
        let mut value = value;
        if value < 0x2000 {
            // Map RAM mirrors to the true RAM range.
            value = value % 0x0800;
        } else if value >= 0x2000 && value < 0x4000 {
            // Map PPU register mirrors to the true PPU register range.
            value = (value % 0x8) + 0x2000;
        }

        Address(value)
    }

    pub fn from_low_high(low: u8, high: u8) -> (address: Address)
        ensures address@ == mirrored((high * 256 + low) as u16),
    {
        assert(((high as u16) << 8u16) == high * 256) by (bit_vector);
        Address::new(((high as u16) << 8) + (low as u16))
    }

    pub fn zero_page(low: u8) -> (address: Address)
        ensures address@ == low as u16,
    {
        Address::new(low as u16)
    }

    pub fn to_raw(&self) -> (raw: u16)
        ensures raw == self@,
    {
        self.0
    }

    pub fn to_low_high(&self) -> (bytes: (u8, u8))
        ensures bytes == ((self@ % 256) as u8, (self@ / 256) as u8),
    {
        let v = self.0;
        assert((v & 0xFF) as u8 == (v % 256) as u8) by (bit_vector);
        assert((v >> 8u16) as u8 == (v / 256) as u8) by (bit_vector);
        ((v & 0xFF) as u8, (v >> 8) as u8)
    }

    /// The address `value` bytes further on, wrapping at 0x10000; no mirroring is applied.
    pub fn advance(&self, value: u8) -> (address: Address)
        ensures address@ == ((self@ + value) % 0x10000) as u16,
    {
        let mut result = *self;
        result.0 = result.0.wrapping_add(value as u16);
        result
    }

    /// The address moved by a signed amount, wrapping at 0x10000; no mirroring is applied.
    pub fn offset(&self, value: i8) -> (address: Address)
        ensures address@ == ((self@ + value) % 0x10000) as u16,
    {
        let mut result = *self;
        result.0 = result.0.wrapping_add_signed(value as i16);
        result
    }

    /// Moves to the next address, wrapping at 0x10000, and returns the new address.
    pub fn inc(&mut self) -> (address: Address)
        ensures
            final(self)@ == ((old(self)@ + 1) % 0x10000) as u16,
            address == *final(self),
    {
        self.0 = self.0.wrapping_add(1);
        *self
    }

    pub fn page(&self) -> (page: u8)
        ensures page == self@ / 256,
    {
        let v = self.0;
        assert((v >> 8u16) as u8 == v / 256) by (bit_vector);
        (v >> 8) as u8
    }

    /// The address as a dollar sign and four uppercase hexadecimal digits.
    pub fn to_string(&self) -> (text: String)
        ensures
            text@ == "$"@ + hex_digits(self@ as nat, 4),
    {
        let mut chars: Vec<char> = Vec::new();
        push_text(&mut chars, "$");
        push_hex_digits(&mut chars, self.0 as u32, 4);
        string_from_chars(&chars)
    }

    /// The region the address belongs to. Every address that `new` makes has one; one moved by
    /// `advance`, `offset` or `inc` into a mirror has none.
    pub fn get_type(&self) -> (address_type: AddressType)
        requires has_type(self@),
        ensures address_type == spec_address_type(self@),
    {
        if self.0 <= 0x07FF {
            AddressType::InternalRAM
        } else if 0x2000 <= self.0 && self.0 <= 0x2007 {
            AddressType::PpuRegister
        } else if 0x4000 <= self.0 && self.0 <= 0x4017 {
            AddressType::ApuRegister
        } else if 0x4018 <= self.0 && self.0 <= 0x401F {
            AddressType::DisabledApuRegister
        } else if 0x4020 <= self.0 && self.0 <= 0xFFF9 {
            AddressType::Cartridge
        } else {
            AddressType::InterruptVector
        }
    }
}

/// The regions of the CPU address space.
#[derive(PartialEq, Eq, Clone, Copy, Debug, Structural)]
pub enum AddressType {
    InternalRAM,
    PpuRegister,
    ApuRegister,
    DisabledApuRegister,
    Cartridge,
    InterruptVector,
}

/// Mirroring is idempotent: an address that was mirrored stays as it is when mirrored again.
pub proof fn lemma_mirrored_idempotent(value: u16)
    ensures mirrored(mirrored(value)) == mirrored(value),
{
}

/// Splitting an address into its low and high bytes, then joining them, gives the address back.
pub proof fn lemma_low_high_round_trip(value: u16)
    ensures mirrored(((value / 256) * 256 + value % 256) as u16) == mirrored(value),
{
}

/// Joining two bytes into an address outside the mirrored ranges (internal RAM or 0x4000 and
/// above), then splitting it, gives the bytes back.
pub proof fn lemma_high_low_round_trip(low: u8, high: u8)
    requires high < 0x08 || high >= 0x40,
    ensures
        ({
            let a = mirrored((high * 256 + low) as u16);
            (a % 256) as u8 == low && (a / 256) as u8 == high
        }),
{
}

/// Every address that `new` produces has a region.
pub proof fn lemma_new_has_type(value: u16)
    ensures has_type(mirrored(value)),
{
}

} // verus!
