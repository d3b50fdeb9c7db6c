use vstd::prelude::*;

verus! {

/// The CPU's data bus and the interrupt lines that the APU drives.
#[derive(Clone, Copy, Debug, PartialEq, Eq, Structural)]
pub struct CpuPinout {
    pub data_bus: u8,
    pub dmc_irq: bool,
    pub frame_irq: bool,
}

impl CpuPinout {
    pub fn new() -> (pinout: CpuPinout)
        ensures pinout == (CpuPinout { data_bus: 0, dmc_irq: false, frame_irq: false }),
    {
        CpuPinout { data_bus: 0, dmc_irq: false, frame_irq: false }
    }

    pub fn dmc_irq_asserted(&self) -> (asserted: bool)
        ensures asserted == self.dmc_irq,
    {
        self.dmc_irq
    }

    pub fn frame_irq_asserted(&self) -> (asserted: bool)
        ensures asserted == self.frame_irq,
    {
        self.frame_irq
    }

    pub fn assert_dmc_irq(&mut self)
        ensures *final(self) == (CpuPinout { dmc_irq: true, ..*old(self) }),
    {
        self.dmc_irq = true;
    }

    pub fn acknowledge_dmc_irq(&mut self)
        ensures *final(self) == (CpuPinout { dmc_irq: false, ..*old(self) }),
    {
        self.dmc_irq = false;
    }

    pub fn assert_frame_irq(&mut self)
        ensures *final(self) == (CpuPinout { frame_irq: true, ..*old(self) }),
    {
        self.frame_irq = true;
    }

    pub fn acknowledge_frame_irq(&mut self)
        ensures *final(self) == (CpuPinout { frame_irq: false, ..*old(self) }),
    {
        self.frame_irq = false;
    }
}

} // verus!
