use vstd::prelude::*;

use crate::cpu::address::Address;
use crate::cpu::port_access::{AccessMode, PortAccess};

verus! {

pub const NMI_VECTOR: u16 = 0xFFFA;
pub const RESET_VECTOR: u16 = 0xFFFC;
pub const IRQ_VECTOR: u16 = 0xFFFE;

// Ports are hard-coded here.
pub const PPUCTRL: u16 = 0x2000;
pub const PPUMASK: u16 = 0x2001;
pub const PPUSTATUS: u16 = 0x2002;
pub const OAMADDR: u16 = 0x2003;
pub const OAMDATA: u16 = 0x2004;
pub const PPUSCROLL: u16 = 0x2005;
pub const PPUADDR: u16 = 0x2006;
pub const PPUDATA: u16 = 0x2007;
pub const OAM_DMA: u16 = 0x4014;

pub const JOYSTICK_1_PORT: u16 = 0x4016;
pub const JOYSTICK_2_PORT: u16 = 0x4017;

/// The ports whose reads are latched.
pub open spec fn is_read_port(address: u16) -> bool {
    address == PPUSTATUS || address == OAMDATA || address == PPUDATA
        || address == JOYSTICK_1_PORT || address == JOYSTICK_2_PORT
}

/// The ports whose writes are latched.
pub open spec fn is_write_port(address: u16) -> bool {
    address == PPUCTRL || address == PPUMASK || address == PPUSTATUS || address == OAMADDR
        || address == OAMDATA || address == PPUSCROLL || address == PPUADDR || address == PPUDATA
        || address == OAM_DMA || address == JOYSTICK_1_PORT
}

/// The 64 KiB CPU address space, with the stack pointer and the latest port access.
pub struct Memory {
    pub stack_pointer: u8,
    memory: Vec<u8>,
    latch: Option<PortAccess>,
}

/// The state of a `Memory`: the stack pointer, the 0x10000 bytes and the latest port access.
pub struct MemoryState {
    pub stack_pointer: u8,
    pub bytes: Seq<u8>,
    pub latch: Option<PortAccess>,
}

impl View for Memory {
    type V = MemoryState;

    closed spec fn view(&self) -> MemoryState {
        MemoryState { stack_pointer: self.stack_pointer, bytes: self.memory@, latch: self.latch }
    }
}

impl MemoryState {
    /// The state after an address is pushed, high byte first.
    pub open spec fn spec_address_pushed(self, address: u16) -> MemoryState {
        MemoryState {
            stack_pointer: ((self.stack_pointer - 2) % 256) as u8,
            bytes: self.bytes
                .update(stack_slot(self.stack_pointer), (address / 256) as u8)
                .update(stack_slot(((self.stack_pointer - 1) % 256) as u8), (address % 256) as u8),
            ..self
        }
    }

    /// The state after an address is popped: the stack pointer moves up by two.
    pub open spec fn spec_address_popped(self) -> MemoryState {
        MemoryState { stack_pointer: ((self.stack_pointer + 2) % 256) as u8, ..self }
    }

    /// The address that a pop gives: the low byte above the stack pointer, the high byte above
    /// that, with the mirrors folded.
    pub open spec fn spec_popped_address(self) -> u16 {
        crate::cpu::address::mirrored((
            self.bytes[stack_slot(((self.stack_pointer + 2) % 256) as u8)] * 256
            + self.bytes[stack_slot(((self.stack_pointer + 1) % 256) as u8)]) as u16)
    }
}

/// Law of the stack: popping an address that was just pushed gives it back, for any address
/// that `Address::new` makes, and leaves the stack pointer, the latch and every byte outside the
/// stack page as they were.
pub proof fn lemma_push_pop_address(state: MemoryState, value: u16)
    requires
        state.bytes.len() == 0x10000,
    ensures
        ({
            let address = crate::cpu::address::mirrored(value);
            let pushed = state.spec_address_pushed(address);
            &&& pushed.spec_popped_address() == address
            &&& pushed.spec_address_popped().stack_pointer == state.stack_pointer
            &&& pushed.spec_address_popped().latch == state.latch
            &&& forall|i: int| 0 <= i < 0x10000 && !(0x100 <= i < 0x200)
                ==> #[trigger] pushed.spec_address_popped().bytes[i] == state.bytes[i]
        }),
{
    let address = crate::cpu::address::mirrored(value);
    let sp = state.stack_pointer;
    let below = ((sp - 1) % 256) as u8;
    let top = ((sp - 2) % 256) as u8;
    assert(((top + 2) % 256) as u8 == sp);
    assert(((top + 1) % 256) as u8 == below);
    assert(stack_slot(sp) != stack_slot(below));
    let pushed = state.spec_address_pushed(address);
    assert(pushed.bytes[stack_slot(sp)] == (address / 256) as u8);
    assert(pushed.bytes[stack_slot(below)] == (address % 256) as u8);
    assert((address / 256) as u8 * 256 + (address % 256) as u8 == address);
}

/// The address of the stack slot that a stack pointer designates.
pub open spec fn stack_slot(stack_pointer: u8) -> int {
    0x100 + stack_pointer
}

impl Memory {
    /// The memory covers the whole 16-bit address space.
    pub open spec fn wf(&self) -> bool {
        self@.bytes.len() == 0x10000
    }

    pub fn new() -> (memory: Memory)
        ensures
            memory.wf(),
            memory@.stack_pointer == 0xFD,
            memory@.latch is None,
            forall|i: int| 0 <= i < 0x10000 ==> memory@.bytes[i] == 0,
    {
        let memory = vec![0u8; 0x10000];
        assert forall|i: int| 0 <= i < 0x10000 implies memory@[i] == 0 by {
            assert(cloned(0u8, memory@[i]));
        }
        Memory { stack_pointer: 0xFD, memory, latch: None }
    }

    /// Reads a byte; reading a read port records the access in the latch.
    pub fn read(&mut self, address: Address) -> (value: u8)
        requires old(self).wf(),
        ensures
            final(self).wf(),
            value == old(self)@.bytes[address@ as int],
            final(self)@.bytes == old(self)@.bytes,
            final(self)@.stack_pointer == old(self)@.stack_pointer,
            final(self)@.latch == if is_read_port(address@) {
                Some(PortAccess { address: address, value: value, access_mode: AccessMode::Read })
            } else {
                old(self)@.latch
            },
    {
        let raw = address.to_raw();
        let value = self.memory[raw as usize];
        if raw == PPUSTATUS || raw == OAMDATA || raw == PPUDATA || raw == JOYSTICK_1_PORT || raw == JOYSTICK_2_PORT {
            self.latch = Some(PortAccess { address, value, access_mode: AccessMode::Read });
        }

        value
    }

    /// Writes a byte; writing a write port records the access in the latch.
    pub fn write(&mut self, address: Address, value: u8)
        requires old(self).wf(),
        ensures
            final(self).wf(),
            final(self)@.bytes == old(self)@.bytes.update(address@ as int, value),
            final(self)@.stack_pointer == old(self)@.stack_pointer,
            final(self)@.latch == if is_write_port(address@) {
                Some(PortAccess { address: address, value: value, access_mode: AccessMode::Write })
            } else {
                old(self)@.latch
            },
    {
        let raw = address.to_raw();
        if raw == PPUCTRL || raw == PPUMASK || raw == PPUSTATUS || raw == OAMADDR || raw == OAMDATA
            || raw == PPUSCROLL || raw == PPUADDR || raw == PPUDATA || raw == OAM_DMA || raw == JOYSTICK_1_PORT {
            self.latch = Some(PortAccess { address, value, access_mode: AccessMode::Write });
        }

        self.memory.set(raw as usize, value);
    }

    /// Reads a byte without side effects.
    pub fn bus_access_read(&self, address: Address) -> (value: u8)
        requires self.wf(),
        ensures value == self@.bytes[address@ as int],
    {
        self.memory[address.to_raw() as usize]
    }

    /// Writes a byte without side effects.
    pub fn bus_access_write(&mut self, address: Address, value: u8)
        requires old(self).wf(),
        ensures
            final(self).wf(),
            final(self)@ == (MemoryState { bytes: old(self)@.bytes.update(address@ as int, value), ..old(self)@ }),
    {
        self.memory.set(address.to_raw() as usize, value);
    }

    /// Stores a byte at the top of the stack, then moves the stack pointer down (wrapping).
    pub fn push_to_stack(&mut self, value: u8)
        requires old(self).wf(),
        ensures
            final(self).wf(),
            final(self)@ == (MemoryState {
                stack_pointer: ((old(self)@.stack_pointer - 1) % 256) as u8,
                bytes: old(self)@.bytes.update(stack_slot(old(self)@.stack_pointer), value),
                ..old(self)@
            }),
    {
        self.memory.set(self.stack_pointer as usize + 0x100, value);
        self.stack_pointer = self.stack_pointer.wrapping_sub(1);
    }

    /// Pushes the high byte, then the low byte, of an address.
    pub fn push_address_to_stack(&mut self, address: Address)
        requires old(self).wf(),
        ensures
            final(self).wf(),
            final(self)@ == old(self)@.spec_address_pushed(address@),
    {
        let (low, high) = address.to_low_high();
        self.push_to_stack(high);
        self.push_to_stack(low);
    }

    /// Moves the stack pointer up (wrapping), then reads the byte it designates.
    pub fn pop_from_stack(&mut self) -> (value: u8)
        requires old(self).wf(),
        ensures
            final(self).wf(),
            final(self)@ == (MemoryState { stack_pointer: ((old(self)@.stack_pointer + 1) % 256) as u8, ..old(self)@ }),
            value == old(self)@.bytes[stack_slot(final(self)@.stack_pointer)],
    {
        self.stack_pointer = self.stack_pointer.wrapping_add(1);
        self.memory[self.stack_pointer as usize + 0x100]
    }

    /// Pops the low byte, then the high byte, of an address.
    pub fn pop_address_from_stack(&mut self) -> (address: Address)
        requires old(self).wf(),
        ensures
            final(self).wf(),
            final(self)@ == old(self)@.spec_address_popped(),
            address@ == old(self)@.spec_popped_address(),
    {
        let low = self.pop_from_stack();
        let high = self.pop_from_stack();
        Address::from_low_high(low, high)
    }

    pub fn latch(&self) -> (latch: Option<PortAccess>)
        ensures latch == self@.latch,
    {
        self.latch
    }

    pub fn reset_latch(&mut self)
        ensures final(self)@ == (MemoryState { latch: None, ..old(self)@ }),
    {
        self.latch = None;
    }

    /// The bytes currently on the stack, from just above the stack pointer to the top of page 1.
    pub fn stack(&self) -> (stack: &[u8])
        requires self.wf(),
        ensures stack@ == self@.bytes.subrange(stack_slot(self@.stack_pointer) + 1, 0x200),
    {
        let start = self.stack_pointer as usize + 0x101;
        &self.memory.as_slice()[start..0x200]
    }
}

/// A byte pushed onto the stack is the byte popped right after, and the stack pointer returns
/// to where it was.
pub proof fn lemma_push_then_pop(before: MemoryState, pushed: MemoryState, popped: MemoryState, value: u8, result: u8)
    requires
        before.bytes.len() == 0x10000,
        pushed == (MemoryState {
            stack_pointer: ((before.stack_pointer - 1) % 256) as u8,
            bytes: before.bytes.update(stack_slot(before.stack_pointer), value),
            ..before
        }),
        popped == (MemoryState { stack_pointer: ((pushed.stack_pointer + 1) % 256) as u8, ..pushed }),
        result == pushed.bytes[stack_slot(popped.stack_pointer)],
    ensures
        result == value,
        popped.stack_pointer == before.stack_pointer,
{
}

} // verus!
