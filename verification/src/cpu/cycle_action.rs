use vstd::prelude::*;

use crate::memory::cpu_address::CpuAddress;

verus! {

/// What a CPU cycle does besides its bus access.
#[derive(PartialEq, Eq, Clone, Copy, Debug, Structural)]
pub enum CycleAction {
    IncrementProgramCounter,
    IncrementAddressBus,
    IncrementAddressBusLow,
    IncrementDmaAddress,
    StorePendingAddressLowByte,
    StorePendingAddressLowByteWithXOffset,
    StorePendingAddressLowByteWithYOffset,
    IncrementStackPointer,
    DecrementStackPointer,
    DisableInterrupts,
    SetInterruptVector,
    ClearInterruptVector,
    PollInterrupts,
    CheckNegativeAndZero,
    XOffsetAddressBus,
    YOffsetAddressBus,
    MaybeInsertOopsStep,
    MaybeInsertBranchOopsStep,
    CopyAddressToPC,
    AddCarryToAddressBus,
    AddCarryToProgramCounter,
    StartNextInstruction,
    InterpretOpCode,
    ExecuteOpCode,
}
/// Where a cycle's bus access reads from.
#[derive(PartialEq, Eq, Clone, Copy, Debug, Structural)]
pub enum From {
    AddressBusTarget,
    DmaAddressTarget,
    ProgramCounterTarget,
    PendingAddressTarget,
    PendingZeroPageTarget,
    TopOfStack,
    InterruptVectorLow,
    InterruptVectorHigh,
}
/// Where a cycle's bus access writes to.
#[derive(PartialEq, Eq, Clone, Copy, Debug, Structural)]
pub enum To {
    AddressBusTarget,
    DmaAddressTarget,
    ProgramCounterTarget,
    PendingAddressTarget,
    PendingZeroPageTarget,
    TopOfStack,
    AddressTarget(CpuAddress),
}
impl To {
    /// The OAM data port, 0x2004.
    pub fn oam_data() -> (to: To)
        ensures to matches To::AddressTarget(address) && address@ == 0x2004,
    {
        To::AddressTarget(CpuAddress::new(0x2004))
    }
}

/// A CPU register or latch that a cycle reads or writes.
#[derive(PartialEq, Eq, Clone, Copy, Debug, Structural)]
pub enum Field {
    ProgramCounterLowByte,
    ProgramCounterHighByte,
    Accumulator,
    Status,
    OpRegister,
}
} // verus!
