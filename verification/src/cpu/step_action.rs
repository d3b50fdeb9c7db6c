use vstd::prelude::*;

use crate::memory::cpu_address::CpuAddress;

verus! {

/// What a CPU step does besides its bus access.
#[derive(PartialEq, Eq, Clone, Copy, Debug, Structural)]
pub enum StepAction {
    IncrementPC,
    AddCarryToPC,
    CopyAddressToPC,
    IncrementAddress,
    IncrementAddressLow,
    XOffsetAddress,
    YOffsetAddress,
    AddCarryToAddress,
    XOffsetPendingAddressLow,
    YOffsetPendingAddressLow,
    IncrementStackPointer,
    DecrementStackPointer,
    IncrementOamDmaAddress,
    DisableInterrupts,
    SetInterruptVector,
    ClearInterruptVector,
    PollInterrupts,
    SetDmcSampleBuffer,
    CheckNegativeAndZero,
    MaybeInsertOopsStep,
    MaybeInsertBranchOopsStep,
    StartNextInstruction,
    InterpretOpCode,
    ExecuteOpCode,
}
/// Where a step's bus access reads from.
#[derive(PartialEq, Eq, Clone, Copy, Debug, Structural)]
pub enum From {
    AddressBusTarget,
    OamDmaAddressTarget,
    DmcDmaAddressTarget,
    ProgramCounterTarget,
    PendingAddressTarget,
    PendingZeroPageTarget,
    ComputedTarget,
    TopOfStack,
    InterruptVectorLow,
    InterruptVectorHigh,
}
/// Where a step's bus access writes to.
#[derive(PartialEq, Eq, Clone, Copy, Debug, Structural)]
pub enum To {
    AddressBusTarget,
    OamDmaAddressTarget,
    ProgramCounterTarget,
    PendingAddressTarget,
    PendingZeroPageTarget,
    ComputedTarget,
    TopOfStack,
    AddressTarget(CpuAddress),
}
impl To {
    /// The OAM data port, 0x2004.
    pub fn oam_data() -> (to: To)
        ensures to matches To::AddressTarget(address) && address@ == 0x2004,
    {
        To::AddressTarget(CpuAddress::new(0x2004))
    }
}

/// A CPU register or latch that a step reads or writes (the argument is called "Data" or "Operand" in the manual).
#[derive(PartialEq, Eq, Clone, Copy, Debug, Structural)]
pub enum Field {
    ProgramCounterLowByte,
    ProgramCounterHighByte,
    Accumulator,
    Status,
    Argument,
    PendingAddressLow,
    PendingAddressHigh,
    OpRegister,
}
} // verus!
