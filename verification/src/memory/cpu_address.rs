use vstd::prelude::*;

verus! {

/// A raw 16-bit address on the CPU bus (no mirroring applied).
#[derive(PartialEq, Eq, Clone, Copy, Debug, Structural)]
pub struct CpuAddress(u16);

impl View for CpuAddress {
    type V = u16;

    closed spec fn view(&self) -> u16 {
        self.0
    }
}

/// Two addresses with the same value are the same address.
pub proof fn lemma_view_injective(a: CpuAddress, b: CpuAddress)
    ensures a@ == b@ ==> a == b,
{
}

/// Every 16-bit value is the value of some address.
pub proof fn lemma_address_exists(value: u16)
    ensures
        exists|address: CpuAddress| address@ == value,
{
    let address = CpuAddress(value);
    assert(address@ == value);
}

impl CpuAddress {
    pub fn new(value: u16) -> (address: CpuAddress)
        ensures address@ == value,
    {
        CpuAddress(value)
    }

    pub fn zero() -> (address: CpuAddress)
        ensures address@ == 0,
    {
        CpuAddress(0)
    }

    pub fn from_low_high(low: u8, high: u8) -> (address: CpuAddress)
        ensures address@ == high * 256 + low,
    {
        assert(((high as u16) << 8u16) == high * 256) by (bit_vector);
        CpuAddress(((high as u16) << 8) + (low as u16))
    }

    pub fn zero_page(low: u8) -> (address: CpuAddress)
        ensures address@ == low as u16,
    {
        CpuAddress(low as u16)
    }

    pub fn to_raw(&self) -> (raw: u16)
        ensures raw == self@,
    {
        self.0
    }

    pub fn to_low_high(&self) -> (bytes: (u8, u8))
        ensures bytes == ((self@ % 256) as u8, (self@ / 256) as u8),
    {
        let v = self.0;
        assert((v & 0xFF) as u8 == (v % 256) as u8) by (bit_vector);
        assert((v >> 8u16) as u8 == (v / 256) as u8) by (bit_vector);
        ((v & 0xFF) as u8, (v >> 8) as u8)
    }

    pub fn page(&self) -> (page: u8)
        ensures page == self@ / 256,
    {
        let v = self.0;
        assert((v >> 8u16) as u8 == v / 256) by (bit_vector);
        (v >> 8) as u8
    }

    /// The address `value` bytes further on, wrapping at 0x10000.
    pub fn advance(&self, value: u8) -> (address: CpuAddress)
        ensures address@ == (self@ + value) % 0x10000,
    {
        CpuAddress(self.0.wrapping_add(value as u16))
    }

    /// The address moved by a signed amount, wrapping at 0x10000.
    pub fn offset(&self, value: i8) -> (address: CpuAddress)
        ensures address@ == (self@ + value) % 0x10000,
    {
        CpuAddress(self.0.wrapping_add_signed(value as i16))
    }

    /// Moves to the next address, wrapping at 0x10000, and returns the new address.
    /// The address with an amount added to its low byte only, wrapping within the page, and
    /// whether the page was left.
    pub fn offset_low(&self, value: u8) -> (result: (CpuAddress, bool))
        ensures
            result.0@ == (self@ / 256) * 256 + (self@ % 256 + value) % 256,
            result.1 == (self@ % 256 + value > 255),
    {
        let low = self.0 % 256 + value as u16;
        let high = self.0 / 256;
        let wrapped: u16 = if low > 255 { low - 256 } else { low };
        (CpuAddress(high * 256 + wrapped), low > 255)
    }

    /// The address with a signed amount added to its low byte only, wrapping within the page,
    /// and which way the page was left: 1 upwards, -1 downwards, 0 not at all.
    pub fn offset_with_carry(&self, value: i8) -> (result: (CpuAddress, i8))
        ensures
            result.0@ == (self@ / 256) * 256 + (self@ % 256 + value) % 256,
            result.1 == if self@ % 256 + value > 255 { 1i8 } else if self@ % 256 + value < 0 { -1i8 } else { 0i8 },
    {
        let low = (self.0 % 256) as i16 + value as i16;
        let high = self.0 / 256;
        let carry: i8 = if low > 255 { 1 } else if low < 0 { -1 } else { 0 };
        let wrapped: u16 = if low > 255 { (low - 256) as u16 } else if low < 0 { (low + 256) as u16 } else { low as u16 };
        (CpuAddress(high * 256 + wrapped), carry)
    }

    /// The address with a signed amount added to its high byte (page), wrapping at 0x10000.
    pub fn offset_high(&self, value: i8) -> (address: CpuAddress)
        ensures address@ == (self@ + value * 256) % 0x10000,
    {
        let moved = (self.0 as i32 + value as i32 * 256) % 0x10000;
        let wrapped = if moved < 0 { moved + 0x10000 } else { moved };
        CpuAddress(wrapped as u16)
    }

    pub fn inc(&mut self) -> (address: CpuAddress)
        ensures final(self)@ == (old(self)@ + 1) % 0x10000, address == *final(self),
    {
        self.0 = self.0.wrapping_add(1);
        *self
    }

    /// The address is the last one of its 256-byte page.
    pub fn is_end_of_page(&self) -> (end: bool)
        ensures end == (self@ % 256 == 255),
    {
        self.0 % 256 == 255
    }
}

} // verus!
