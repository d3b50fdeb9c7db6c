use vstd::prelude::*;

use crate::memory::cpu_address::CpuAddress;

verus! {

/// A page-sized DMA transfer: read and write each byte of the page in turn.
pub struct DmaTransfer {
    current_cpu_address: CpuAddress,
    should_fix_cycle_alignment: bool,
    next_state: DmaTransferState,
}

impl View for DmaTransfer {
    type V = (u16, bool, DmaTransferState);

    closed spec fn view(&self) -> (u16, bool, DmaTransferState) {
        (self.current_cpu_address@, self.should_fix_cycle_alignment, self.next_state)
    }
}

impl DmaTransfer {
    /// A transfer of the given page; one that starts on an odd cycle first aligns to an even one.
    pub fn new(page: u8, current_cycle: u64) -> (transfer: DmaTransfer)
        ensures transfer@ == ((page * 256) as u16, current_cycle % 2 == 1, DmaTransferState::WaitOnPreviousWrite),
    {
        DmaTransfer {
            current_cpu_address: CpuAddress::from_low_high(0, page),
            should_fix_cycle_alignment: current_cycle % 2 == 1,
            next_state: DmaTransferState::WaitOnPreviousWrite,
        }
    }

    pub fn inactive() -> (transfer: DmaTransfer)
        ensures transfer@ == (0u16, false, DmaTransferState::Finished),
    {
        DmaTransfer {
            current_cpu_address: CpuAddress::new(0),
            should_fix_cycle_alignment: false,
            next_state: DmaTransferState::Finished,
        }
    }

    /// Returns the current state and moves to the next one.
    pub fn step(&mut self) -> (state: DmaTransferState)
        ensures
            state == old(self)@.2,
            final(self)@.1 == old(self)@.1,
            ({
                let (address, align, current) = old(self)@;
                match current {
                    DmaTransferState::WaitOnPreviousWrite => final(self)@ == (address, align,
                        if align { DmaTransferState::AlignToEven } else { DmaTransferState::Read }),
                    DmaTransferState::AlignToEven => final(self)@ == (address, align, DmaTransferState::Read),
                    DmaTransferState::Read => final(self)@.0 == address
                        && (final(self)@.2 matches DmaTransferState::Write(target) && target@ == address),
                    DmaTransferState::Write(_) => if address % 256 == 255 {
                        final(self)@ == (address, align, DmaTransferState::Finished)
                    } else {
                        final(self)@ == (((address + 1) % 0x10000) as u16, align, DmaTransferState::Read)
                    },
                    DmaTransferState::Finished => final(self)@ == (address, align, DmaTransferState::Finished),
                }
            }),
    {
        let current_state = self.next_state;

        self.next_state = match current_state {
            DmaTransferState::WaitOnPreviousWrite if self.should_fix_cycle_alignment => DmaTransferState::AlignToEven,
            DmaTransferState::WaitOnPreviousWrite | DmaTransferState::AlignToEven => DmaTransferState::Read,
            DmaTransferState::Read => DmaTransferState::Write(self.current_cpu_address),
            DmaTransferState::Write(_) if self.current_cpu_address.is_end_of_page() => DmaTransferState::Finished,
            DmaTransferState::Write(_) => {
                self.current_cpu_address.inc();
                DmaTransferState::Read
            }
            DmaTransferState::Finished => DmaTransferState::Finished,
        };

        current_state
    }
}

#[derive(Clone, Copy, Debug, PartialEq, Eq, Structural)]
pub enum DmaTransferState {
    WaitOnPreviousWrite,
    AlignToEven,
    Read,
    Write(CpuAddress),
    Finished,
}

} // verus!
