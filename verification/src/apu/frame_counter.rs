use vstd::prelude::*;

verus! {

pub const FOUR_STEP_FRAME_LENGTH: u16 = 14915;
pub const FIVE_STEP_FRAME_LENGTH: u16 = 18641;

/// The frame counter register (0x4017).
#[derive(Clone, Copy, Debug, PartialEq, Eq, Structural)]
pub struct FrameCounter {
    pub step_mode: StepMode,
    pub frame_interrupt: bool,
}

impl Default for FrameCounter {
    fn default() -> (counter: Self)
        ensures counter == (FrameCounter { step_mode: StepMode::FourStep, frame_interrupt: false }),
    {
        FrameCounter { step_mode: StepMode::FourStep, frame_interrupt: false }
    }
}

impl FrameCounter {
    /// Bit 7 selects five-step mode; a clear bit 6 enables the frame interrupt.
    pub fn write(&mut self, value: u8)
        ensures
            *final(self) == (FrameCounter {
                step_mode: if value & 0b1000_0000 == 0 { StepMode::FourStep } else { StepMode::FiveStep },
                frame_interrupt: value & 0b0100_0000 == 0,
            }),
    {
        self.step_mode = if value & 0b1000_0000 == 0 { StepMode::FourStep } else { StepMode::FiveStep };
        self.frame_interrupt = value & 0b0100_0000 == 0;
    }
}

/// The APU frame sequence: four or five steps.
#[derive(PartialEq, Eq, Clone, Copy, Debug, Structural)]
pub enum StepMode {
    FourStep,
    FiveStep,
}

impl StepMode {
    /// The number of APU cycles in a frame of this mode.
    pub fn frame_length(self) -> (length: u16)
        ensures length == if self == StepMode::FourStep { FOUR_STEP_FRAME_LENGTH } else { FIVE_STEP_FRAME_LENGTH },
    {
        match self {
            StepMode::FourStep => FOUR_STEP_FRAME_LENGTH,
            StepMode::FiveStep => FIVE_STEP_FRAME_LENGTH,
        }
    }
}

} // verus!
