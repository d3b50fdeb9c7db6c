use vstd::prelude::*;

use crate::apu::apu_registers::CycleParity;
use crate::memory::cpu_address::CpuAddress;

verus! {

/// The DMA unit that copies a page of CPU memory into OAM, 256 read/write pairs.
pub struct OamDma {
    state: OamDmaState,
    address: CpuAddress,
}

impl View for OamDma {
    type V = (OamDmaState, u16);

    closed spec fn view(&self) -> (OamDmaState, u16) {
        (self.state, self.address@)
    }
}

impl OamDma {
    pub fn idle() -> (dma: Self)
        ensures dma@ == (OamDmaState::Idle, 0u16),
    {
        Self { state: OamDmaState::Idle, address: CpuAddress::zero() }
    }

    pub fn dma_pending(&self) -> (pending: bool)
        ensures pending == (self@.0 == OamDmaState::TryHalt),
    {
        self.state == OamDmaState::TryHalt
    }

    pub fn address(&self) -> (address: CpuAddress)
        ensures address@ == self@.1,
    {
        self.address
    }

    pub fn increment_address(&mut self)
        ensures final(self)@ == (old(self)@.0, ((old(self)@.1 + 1) % 0x10000) as u16),
    {
        self.address.inc();
    }

    /// Starts a transfer from the start of the given page.
    pub fn prepare_to_start(&mut self, page: u8)
        ensures final(self)@ == (OamDmaState::TryHalt, (page * 256) as u16),
    {
        self.state = OamDmaState::TryHalt;
        self.address = CpuAddress::from_low_high(0, page);
    }

    pub fn step(&mut self, is_read_step: bool, parity: CycleParity, block_memory_access: bool) -> (action: OamDmaAction)
        ensures
            (final(self)@.0, action) == old(self)@.0.spec_step(is_read_step, parity, block_memory_access),
            final(self)@.1 == old(self)@.1,
    {
        self.state.step(is_read_step, parity, block_memory_access)
    }
}

#[derive(PartialEq, Eq, Clone, Copy, Debug, Structural)]
pub enum OamDmaState {
    Idle,
    TryHalt,
    TryRead(u8),
    Write(u8),
}

impl OamDmaState {
    /// The next state and the action of one step.
    pub open spec fn spec_step(self, is_read_step: bool, parity: CycleParity, block_memory_access: bool) -> (OamDmaState, OamDmaAction) {
        if self == OamDmaState::TryHalt && !is_read_step {
            // DMA can't halt until the CPU is reading.
            (self, OamDmaAction::DoNothing)
        } else if self is TryRead && parity == CycleParity::Get {
            (self, OamDmaAction::Align)
        } else if block_memory_access && (self is TryRead || self is Write) {
            (self, OamDmaAction::DoNothing)
        } else {
            match self {
                OamDmaState::Idle => (OamDmaState::Idle, OamDmaAction::DoNothing),
                OamDmaState::TryHalt => (OamDmaState::TryRead(0), OamDmaAction::Halt),
                OamDmaState::TryRead(n) => (OamDmaState::Write(n), OamDmaAction::Read),
                OamDmaState::Write(n) => if n < 255 {
                    (OamDmaState::TryRead((n + 1) as u8), OamDmaAction::Write)
                } else {
                    (OamDmaState::Idle, OamDmaAction::Write)
                },
            }
        }
    }

    fn step(&mut self, is_read_step: bool, parity: CycleParity, block_memory_access: bool) -> (action: OamDmaAction)
        ensures (*final(self), action) == old(self).spec_step(is_read_step, parity, block_memory_access),
    {
        // DMA can't halt until the CPU is reading.
        if *self == OamDmaState::TryHalt && !is_read_step {
            return OamDmaAction::DoNothing;
        }

        // DMA can't read on GET steps here.
        if matches!(*self, OamDmaState::TryRead(_)) && parity == CycleParity::Get {
            return OamDmaAction::Align;
        }

        if block_memory_access && matches!(*self, OamDmaState::TryRead(_) | OamDmaState::Write(_)) {
            return OamDmaAction::DoNothing;
        }

        let (step_result, next_state) = match *self {
            OamDmaState::Idle => (OamDmaAction::DoNothing, OamDmaState::Idle),
            OamDmaState::TryHalt => (OamDmaAction::Halt, OamDmaState::TryRead(0)),
            OamDmaState::TryRead(n) => (OamDmaAction::Read, OamDmaState::Write(n)),
            OamDmaState::Write(n) => if n < 255 {
                (OamDmaAction::Write, OamDmaState::TryRead(n + 1))
            } else {
                (OamDmaAction::Write, OamDmaState::Idle)
            },
        };

        *self = next_state;
        step_result
    }
}

#[derive(PartialEq, Eq, Clone, Copy, Debug, Structural)]
pub enum OamDmaAction {
    DoNothing,
    Halt,
    Align,
    Read,
    Write,
}

/// The state after `count` unhindered read-write pairs: each read on a PUT cycle, each write on
/// the next cycle.
pub open spec fn after_read_write_pairs(state: OamDmaState, count: nat) -> OamDmaState
    decreases count,
{
    if count == 0 {
        state
    } else {
        let before = after_read_write_pairs(state, (count - 1) as nat);
        before.spec_step(true, CycleParity::Put, false).0.spec_step(true, CycleParity::Get, false).0
    }
}

/// Once halted, an unhindered OAM DMA reads and then writes each of the 256 bytes of the page in
/// turn, and is idle after the last write.
pub proof fn lemma_transfers_a_page(count: nat)
    requires
        count <= 256,
    ensures
        count < 256 ==> after_read_write_pairs(OamDmaState::TryRead(0), count) == OamDmaState::TryRead(count as u8),
        count < 256 ==> OamDmaState::TryRead(count as u8).spec_step(true, CycleParity::Put, false)
            == (OamDmaState::Write(count as u8), OamDmaAction::Read),
        count < 256 ==> OamDmaState::Write(count as u8).spec_step(true, CycleParity::Get, false).1 == OamDmaAction::Write,
        count == 256 ==> after_read_write_pairs(OamDmaState::TryRead(0), count) == OamDmaState::Idle,
    decreases count,
{
    if count > 0 {
        lemma_transfers_a_page((count - 1) as nat);
    }
}

} // verus!
