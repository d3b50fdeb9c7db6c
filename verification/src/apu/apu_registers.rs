use vstd::prelude::*;

use crate::apu::dmc::Dmc;
use crate::apu::noise_channel::NoiseChannel;
use crate::apu::pulse_channel::PulseChannel;
use crate::apu::triangle_channel::TriangleChannel;
use crate::cpu::dmc_dma::DmcDma;
use crate::memory::cpu_pinout::CpuPinout;
use crate::util::{pack8, pack_bools};

verus! {

pub const FOUR_STEP_FRAME_LENGTH: u16 = 14915;
pub const FIVE_STEP_FRAME_LENGTH: u16 = 18641;

/// The value read from 0x4015.
#[derive(Clone, Copy, Debug, PartialEq, Eq, Structural)]
pub struct Status {
    pub dmc_interrupt: bool,
    pub frame_irq_status: bool,
    pub dmc_active: bool,
    pub noise_active: bool,
    pub triangle_active: bool,
    pub pulse_2_active: bool,
    pub pulse_1_active: bool,
}

impl Status {
    /// The status byte: bits 7 and 6 are the DMC and frame interrupts, bit 5 is clear, bits 4
    /// to 0 are the DMC, noise, triangle, pulse 2 and pulse 1 activity.
    pub open spec fn spec_byte(self) -> u8 {
        pack8(self.dmc_interrupt, self.frame_irq_status, false, self.dmc_active, self.noise_active,
            self.triangle_active, self.pulse_2_active, self.pulse_1_active)
    }

    pub fn to_u8(self) -> (byte: u8)
        ensures byte == self.spec_byte(),
    {
        pack_bools(
            [
                self.dmc_interrupt,
                self.frame_irq_status,
                false,
                self.dmc_active,
                self.noise_active,
                self.triangle_active,
                self.pulse_2_active,
                self.pulse_1_active,
            ]
        )
    }
}

/// The APU frame sequence: four or five steps.
#[derive(PartialEq, Eq, Clone, Copy, Debug, Structural)]
pub enum StepMode {
    FourStep,
    FiveStep,
}

impl StepMode {
    pub open spec fn spec_frame_length(self) -> u16 {
        match self {
            StepMode::FourStep => FOUR_STEP_FRAME_LENGTH,
            StepMode::FiveStep => FIVE_STEP_FRAME_LENGTH,
        }
    }

    /// The number of APU cycles in a frame of this mode.
    pub fn frame_length(self) -> (length: u16)
        ensures length == self.spec_frame_length(),
    {
        match self {
            StepMode::FourStep => FOUR_STEP_FRAME_LENGTH,
            StepMode::FiveStep => FIVE_STEP_FRAME_LENGTH,
        }
    }
}

/// Counts CPU cycles since the frame sequence was last reset.
pub struct ApuClock {
    raw_cpu_cycle: u64,
    parity: CycleParity,
    pub step_mode: StepMode,
}

/// The state of an `ApuClock`.
pub struct ApuClockState {
    pub raw_cpu_cycle: u64,
    pub parity: CycleParity,
    pub step_mode: StepMode,
}

impl View for ApuClock {
    type V = ApuClockState;

    closed spec fn view(&self) -> ApuClockState {
        ApuClockState { raw_cpu_cycle: self.raw_cpu_cycle, parity: self.parity, step_mode: self.step_mode }
    }
}

impl ApuClockState {
    /// The CPU cycle within the current pair of frames.
    pub open spec fn spec_cpu_cycle(self) -> u16 {
        ((self.raw_cpu_cycle as int) % (2 * self.step_mode.spec_frame_length() as int)) as u16
    }
}

impl ApuClock {
    pub fn new() -> (clock: Self)
        ensures clock@ == (ApuClockState { raw_cpu_cycle: 0, parity: CycleParity::Get, step_mode: StepMode::FourStep }),
    {
        Self {
            raw_cpu_cycle: 0,
            parity: CycleParity::Get,
            step_mode: StepMode::FourStep,
        }
    }

    /// Called every CPU cycle (not APU cycle); the cycle count must not overflow.
    pub fn tick(&mut self)
        requires old(self)@.raw_cpu_cycle < u64::MAX,
        ensures
            final(self)@ == (ApuClockState {
                raw_cpu_cycle: (old(self)@.raw_cpu_cycle + 1) as u64,
                parity: old(self)@.parity.spec_toggled(),
                ..old(self)@
            }),
    {
        self.raw_cpu_cycle += 1;
        self.parity.toggle();
    }

    pub fn reset(&mut self)
        ensures final(self)@ == (ApuClockState { raw_cpu_cycle: 0, ..old(self)@ }),
    {
        self.raw_cpu_cycle = 0;
    }

    pub fn cycle_parity(&self) -> (parity: CycleParity)
        ensures parity == self@.parity,
    {
        self.parity
    }

    pub fn cpu_cycle(&self) -> (cycle: u16)
        ensures cycle == self@.spec_cpu_cycle(),
    {
        let frame_pair_length = 2 * (self.step_mode.frame_length() as u64);
        (self.raw_cpu_cycle % frame_pair_length) as u16
    }

    pub fn apu_cycle(&self) -> (cycle: u16)
        ensures cycle == self@.spec_cpu_cycle() / 2,
    {
        self.cpu_cycle() / 2
    }

    pub fn raw_apu_cycle(&self) -> (cycle: u64)
        ensures cycle == self@.raw_cpu_cycle / 2,
    {
        self.raw_cpu_cycle / 2
    }

    /// The clock has just been reset.
    pub fn is_forced_reset_cycle(&self) -> (reset: bool)
        ensures reset == (self@.raw_cpu_cycle == 0),
    {
        self.raw_cpu_cycle == 0
    }
}

/// Whether an APU cycle is a GET or a PUT cycle; they alternate.
#[derive(PartialEq, Eq, Clone, Copy, Debug, Structural)]
pub enum CycleParity {
    Get,
    Put,
}

impl CycleParity {
    /// The name of the half of the cycle: "GET" or "PUT".
    pub fn to_string(&self) -> (text: String)
        ensures
            text@ == (match *self {
                CycleParity::Get => "GET"@,
                CycleParity::Put => "PUT"@,
            }),
    {
        match *self {
            CycleParity::Get => String::from_str("GET"),
            CycleParity::Put => String::from_str("PUT"),
        }
    }

    pub open spec fn spec_toggled(self) -> CycleParity {
        match self {
            CycleParity::Get => CycleParity::Put,
            CycleParity::Put => CycleParity::Get,
        }
    }

    pub fn toggle(&mut self)
        ensures *final(self) == old(self).spec_toggled(),
    {
        match *self {
            CycleParity::Get => *self = CycleParity::Put,
            CycleParity::Put => *self = CycleParity::Get,
        }
    }
}

/// A write to the frame counter resets the clock after a delay: Pending, then Ready, then back
/// to Inactive.
#[derive(PartialEq, Eq, Clone, Copy, Debug, Structural)]
pub enum ClockResetStatus {
    Inactive,
    Pending,
    Ready,
}

impl ClockResetStatus {
    pub open spec fn spec_ticked(self) -> ClockResetStatus {
        match self {
            ClockResetStatus::Inactive => ClockResetStatus::Inactive,
            ClockResetStatus::Pending => ClockResetStatus::Ready,
            ClockResetStatus::Ready => ClockResetStatus::Inactive,
        }
    }

    pub fn initialize(&mut self)
        ensures *final(self) == ClockResetStatus::Pending,
    {
        *self = ClockResetStatus::Pending;
    }

    /// Advances the status; returns whether the clock should be reset now.
    pub fn tick(&mut self) -> (is_ready: bool)
        ensures is_ready == (*old(self) == ClockResetStatus::Ready), *final(self) == old(self).spec_ticked(),
    {
        let is_ready = *self == ClockResetStatus::Ready;
        match *self {
            ClockResetStatus::Inactive => { /* Stay inactive. */ }
            ClockResetStatus::Pending => *self = ClockResetStatus::Ready,
            ClockResetStatus::Ready => *self = ClockResetStatus::Inactive,
        }

        is_ready
    }
}

/// After initialization, the clock reset fires (the status is ready when ticked) on the second
/// tick and on no other: not on the first, and never again once it has fired.
pub proof fn lemma_clock_reset_fires_on_second_tick()
    ensures
        ClockResetStatus::Pending != ClockResetStatus::Ready,
        ClockResetStatus::Pending.spec_ticked() == ClockResetStatus::Ready,
        ClockResetStatus::Ready.spec_ticked() == ClockResetStatus::Inactive,
        ClockResetStatus::Inactive.spec_ticked() == ClockResetStatus::Inactive,
{
}

/// The APU cycles of the frame sequence's steps.
pub const FIRST_STEP: u16 = 3728;
pub const SECOND_STEP: u16 = 7456;
pub const THIRD_STEP: u16 = 11185;
pub const FOURTH_STEP: u16 = 14914;
pub const FIFTH_STEP: u16 = 18640;

/// What the frame sequence does on an APU cycle: nothing, a quarter frame, or a half frame.
/// Here a quarter frame only suppresses the counters' recurrence for two cycles, and a half frame
/// also clocks the length counters; the envelope, linear-counter and sweep units that these
/// frames would also clock are not modelled.
#[derive(PartialEq, Eq, Clone, Copy, Debug, Structural)]
pub enum FrameStep {
    Idle,
    QuarterFrame,
    HalfFrame,
}

/// The frame sequence: quarter frames on the first and third steps, half frames on the second
/// and on the last step of the mode (the fourth in four-step mode, the fifth in five-step mode).
pub open spec fn frame_step(apu_cycle: u16, step_mode: StepMode) -> FrameStep {
    if apu_cycle == FIRST_STEP || apu_cycle == THIRD_STEP {
        FrameStep::QuarterFrame
    } else if apu_cycle == SECOND_STEP {
        FrameStep::HalfFrame
    } else if apu_cycle == FOURTH_STEP && step_mode == StepMode::FourStep {
        FrameStep::HalfFrame
    } else if apu_cycle == FIFTH_STEP && step_mode == StepMode::FiveStep {
        FrameStep::HalfFrame
    } else {
        FrameStep::Idle
    }
}

/// The APU's channels and the registers of its frame sequence and status.
pub struct ApuRegisters {
    pub pulse_1: PulseChannel,
    pub pulse_2: PulseChannel,
    pub triangle: TriangleChannel,
    pub noise: NoiseChannel,
    pub dmc: Dmc,

    pub pending_step_mode: StepMode,
    pub dmc_enabled: bool,
    pub frame_irq_status: bool,
    pub suppress_frame_irq: bool,
    pub should_acknowledge_frame_irq: bool,
    pub clock_reset_status: ClockResetStatus,

    // Whenever a quarter or half frame signal occurs, recurrence is suppressed for 2 cycles.
    // This is the basis of apu_test_2, motivation described here:
    // https://forums.nesdev.org/viewtopic.php?t=11174&sid=fe21b7f101cf155ca56eda5287c14c89
    pub counter_suppression_cycles: u8,
}

impl ApuRegisters {
    /// The channels keep their value ranges.
    pub open spec fn inv(&self) -> bool {
        self.triangle.inv() && self.dmc.inv()
    }

    /// The registers after a length clock: every length counter counts down.
    pub open spec fn spec_length_counters_decremented(self) -> ApuRegisters {
        ApuRegisters {
            pulse_1: PulseChannel { length_counter: self.pulse_1.length_counter.spec_decremented(), ..self.pulse_1 },
            pulse_2: PulseChannel { length_counter: self.pulse_2.length_counter.spec_decremented(), ..self.pulse_2 },
            triangle: TriangleChannel { length_counter: self.triangle.length_counter.spec_decremented(), ..self.triangle },
            noise: NoiseChannel { length_counter: self.noise.length_counter.spec_decremented(), ..self.noise },
            ..self
        }
    }

    /// The registers after the length counters' pending reloads and halts take effect.
    pub open spec fn spec_pending_values_applied(self) -> ApuRegisters {
        ApuRegisters {
            pulse_1: PulseChannel { length_counter: self.pulse_1.length_counter.spec_applied(), ..self.pulse_1 },
            pulse_2: PulseChannel { length_counter: self.pulse_2.length_counter.spec_applied(), ..self.pulse_2 },
            triangle: TriangleChannel { length_counter: self.triangle.length_counter.spec_applied(), ..self.triangle },
            noise: NoiseChannel { length_counter: self.noise.length_counter.spec_applied(), ..self.noise },
            ..self
        }
    }

    /// On a GET cycle the clock reset status advances; when it was ready, the clock restarts in
    /// the pending step mode, and five-step mode clocks the length counters at once unless a
    /// recent clock suppresses it.
    pub open spec fn spec_step_mode_updated(self, clock: ApuClockState) -> (ApuRegisters, ApuClockState) {
        if clock.parity == CycleParity::Get {
            let ticked = ApuRegisters { clock_reset_status: self.clock_reset_status.spec_ticked(), ..self };
            if self.clock_reset_status == ClockResetStatus::Ready {
                let reset_clock = ApuClockState { raw_cpu_cycle: 0, step_mode: self.pending_step_mode, ..clock };
                if self.pending_step_mode == StepMode::FiveStep && self.counter_suppression_cycles == 0 {
                    (ApuRegisters { counter_suppression_cycles: 2, ..ticked.spec_length_counters_decremented() }, reset_clock)
                } else {
                    (ticked, reset_clock)
                }
            } else {
                (ticked, clock)
            }
        } else {
            (self, clock)
        }
    }

    /// A status read is acknowledged on the next GET cycle. In four-step mode, except on the
    /// cycle right after a reset, the frame IRQ flag is set on the frame's last APU cycle and
    /// at the start of its first one (unless suppressed), and the IRQ is raised on those cycles
    /// unless suppressed.
    pub open spec fn spec_frame_irq_updated(self, clock: ApuClockState, pinout: CpuPinout) -> (ApuRegisters, CpuPinout) {
        let (acked, pinout1) = if self.should_acknowledge_frame_irq && clock.parity == CycleParity::Get {
            (
                ApuRegisters { frame_irq_status: false, should_acknowledge_frame_irq: false, ..self },
                CpuPinout { frame_irq: false, ..pinout },
            )
        } else {
            (self, pinout)
        };
        if clock.step_mode == StepMode::FiveStep || clock.raw_cpu_cycle == 0 {
            (acked, pinout1)
        } else {
            let apu_cycle = clock.spec_cpu_cycle() / 2;
            let is_start_of_first_cycle = apu_cycle == 0 && clock.parity == CycleParity::Get;
            let is_last_cycle = apu_cycle == FOUR_STEP_FRAME_LENGTH - 1;
            let status = if is_last_cycle {
                true
            } else if is_start_of_first_cycle {
                !acked.suppress_frame_irq
            } else {
                acked.frame_irq_status
            };
            (
                ApuRegisters { frame_irq_status: status, ..acked },
                if (is_last_cycle || is_start_of_first_cycle) && !acked.suppress_frame_irq {
                    CpuPinout { frame_irq: true, ..pinout1 }
                } else {
                    pinout1
                },
            )
        }
    }

    /// The frame sequence's effect on an APU cycle: any step suppresses recurrence for two
    /// cycles, and a half frame clocks the length counters.
    pub open spec fn spec_counters_stepped(self, clock: ApuClockState) -> ApuRegisters {
        match frame_step((clock.spec_cpu_cycle() / 2) as u16, clock.step_mode) {
            FrameStep::Idle => self,
            FrameStep::QuarterFrame => ApuRegisters { counter_suppression_cycles: 2, ..self },
            FrameStep::HalfFrame => ApuRegisters { counter_suppression_cycles: 2, ..self.spec_length_counters_decremented() },
        }
    }

    pub fn new() -> (registers: ApuRegisters)
        ensures
            registers.inv(),
            registers.pending_step_mode == StepMode::FourStep,
            !registers.dmc_enabled,
            !registers.frame_irq_status,
            !registers.suppress_frame_irq,
            !registers.should_acknowledge_frame_irq,
            registers.clock_reset_status == ClockResetStatus::Inactive,
            registers.counter_suppression_cycles == 0,
    {
        ApuRegisters {
            pulse_1: PulseChannel::default(),
            pulse_2: PulseChannel::default(),
            triangle: TriangleChannel::default(),
            noise: NoiseChannel::default(),
            dmc: Dmc::default(),

            pending_step_mode: StepMode::FourStep,
            dmc_enabled: false,
            frame_irq_status: false,
            suppress_frame_irq: false,
            should_acknowledge_frame_irq: false,
            clock_reset_status: ClockResetStatus::Inactive,

            counter_suppression_cycles: 0,
        }
    }

    /// At reset, the channels are disabled, both APU interrupts are acknowledged, and the last
    /// frame counter write is applied again.
    pub fn reset(&mut self, clock: &ApuClock, cpu_pinout: &mut CpuPinout)
        ensures
            *final(cpu_pinout) == (CpuPinout { dmc_irq: false, frame_irq: false, ..*old(cpu_pinout) }),
            *final(self) == (ApuRegisters {
                noise: crate::apu::noise_channel::NoiseChannel {
                    enabled: false,
                    length_counter: crate::apu::length_counter::LengthCounter { count: 0, ..old(self).noise.length_counter },
                    ..old(self).noise
                },
                triangle: TriangleChannel {
                    enabled: false,
                    length_counter: crate::apu::length_counter::LengthCounter { count: 0, ..old(self).triangle.length_counter },
                    ..old(self).triangle
                },
                pulse_2: PulseChannel {
                    enabled: false,
                    length_counter: crate::apu::length_counter::LengthCounter { count: 0, ..old(self).pulse_2.length_counter },
                    ..old(self).pulse_2
                },
                pulse_1: PulseChannel {
                    enabled: false,
                    length_counter: crate::apu::length_counter::LengthCounter { count: 0, ..old(self).pulse_1.length_counter },
                    ..old(self).pulse_1
                },
                clock_reset_status: ClockResetStatus::Pending,
                frame_irq_status: false,
                ..*old(self)
            }),
    {
        // At reset, $4015 should be cleared
        self.disable_channels();
        cpu_pinout.acknowledge_dmc_irq();
        // At reset, $4017 should should be rewritten with last value written
        self.clock_reset_status.initialize();
        cpu_pinout.acknowledge_frame_irq();
        self.frame_irq_status = false;
    }

    pub fn clock_reset_status(&self) -> (status: ClockResetStatus)
        ensures status == self.clock_reset_status,
    {
        self.clock_reset_status
    }

    /// The value of 0x4015, without the side effect of reading it.
    pub fn peek_status(&self, cpu_pinout: &CpuPinout, dma: &DmcDma) -> (status: Status)
        ensures
            status == (Status {
                dmc_interrupt: cpu_pinout.dmc_irq,
                frame_irq_status: self.frame_irq_status,
                dmc_active: self.dmc_enabled && dma@.state != crate::cpu::dmc_dma::DmcDmaState::Idle,
                noise_active: self.noise.length_counter.count != 0,
                triangle_active: self.triangle.length_counter.count != 0,
                pulse_2_active: self.pulse_2.length_counter.count != 0,
                pulse_1_active: self.pulse_1.length_counter.count != 0,
            }),
    {
        Status {
            dmc_interrupt: cpu_pinout.dmc_irq_asserted(),
            frame_irq_status: self.frame_irq_status,
            dmc_active: self.dmc_enabled && dma.active(),
            noise_active: self.noise.active(),
            triangle_active: self.triangle.active(),
            pulse_2_active: self.pulse_2.active(),
            pulse_1_active: self.pulse_1.active(),
        }
    }

    // Read 0x4015
    /// Reads the status; clearing the frame IRQ flag is delayed until the next GET cycle.
    pub fn read_status(&mut self, clock: &ApuClock, cpu_pinout: &CpuPinout, dma: &DmcDma) -> (status: Status)
        ensures
            status == (Status {
                dmc_interrupt: cpu_pinout.dmc_irq,
                frame_irq_status: old(self).frame_irq_status,
                dmc_active: old(self).dmc_enabled && dma@.state != crate::cpu::dmc_dma::DmcDmaState::Idle,
                noise_active: old(self).noise.length_counter.count != 0,
                triangle_active: old(self).triangle.length_counter.count != 0,
                pulse_2_active: old(self).pulse_2.length_counter.count != 0,
                pulse_1_active: old(self).pulse_1.length_counter.count != 0,
            }),
            *final(self) == (ApuRegisters { should_acknowledge_frame_irq: true, ..*old(self) }),
    {
        let status = self.peek_status(cpu_pinout, dma);
        // Clearing Frame IRQ pending must be delayed until the next GET cycle.
        self.should_acknowledge_frame_irq = true;
        status
    }

    // Write 0x4015
    /// The data bus's bits 4 to 0 enable the DMC, noise, triangle, pulse 2 and pulse 1 channels.
    pub fn write_status_byte(&mut self, clock: &ApuClock, cpu_pinout: &mut CpuPinout, dmc_dma: &mut DmcDma)
        requires
            old(self).inv(),
            old(self).dmc.spec_starts_load(old(cpu_pinout).data_bus & 0b0001_0000 != 0)
                ==> old(dmc_dma)@.state == crate::cpu::dmc_dma::DmcDmaState::Idle,
        ensures
            ({
                let value = old(cpu_pinout).data_bus;
                let d = value & 0b0001_0000 != 0;
                &&& final(self).inv()
                &&& final(self).dmc == old(self).dmc.spec_set_enabled(d)
                &&& final(dmc_dma)@ == old(self).dmc.spec_dma_after_set_enabled(old(dmc_dma)@, clock@.parity, d)
                &&& *final(cpu_pinout) == (CpuPinout { dmc_irq: false, ..*old(cpu_pinout) })
                &&& final(self).dmc_enabled == d
                &&& final(self).noise == (NoiseChannel {
                    enabled: value & 0b0000_1000 != 0,
                    length_counter: if value & 0b0000_1000 != 0 {
                        old(self).noise.length_counter
                    } else {
                        crate::apu::length_counter::LengthCounter { count: 0, ..old(self).noise.length_counter }
                    },
                    ..old(self).noise
                })
                &&& final(self).triangle == (TriangleChannel {
                    enabled: value & 0b0000_0100 != 0,
                    length_counter: if value & 0b0000_0100 != 0 {
                        old(self).triangle.length_counter
                    } else {
                        crate::apu::length_counter::LengthCounter { count: 0, ..old(self).triangle.length_counter }
                    },
                    ..old(self).triangle
                })
                &&& final(self).pulse_2 == (PulseChannel {
                    enabled: value & 0b0000_0010 != 0,
                    length_counter: if value & 0b0000_0010 != 0 {
                        old(self).pulse_2.length_counter
                    } else {
                        crate::apu::length_counter::LengthCounter { count: 0, ..old(self).pulse_2.length_counter }
                    },
                    ..old(self).pulse_2
                })
                &&& final(self).pulse_1 == (PulseChannel {
                    enabled: value & 0b0000_0001 != 0,
                    length_counter: if value & 0b0000_0001 != 0 {
                        old(self).pulse_1.length_counter
                    } else {
                        crate::apu::length_counter::LengthCounter { count: 0, ..old(self).pulse_1.length_counter }
                    },
                    ..old(self).pulse_1
                })
                &&& final(self).pending_step_mode == old(self).pending_step_mode
                &&& final(self).frame_irq_status == old(self).frame_irq_status
                &&& final(self).suppress_frame_irq == old(self).suppress_frame_irq
                &&& final(self).should_acknowledge_frame_irq == old(self).should_acknowledge_frame_irq
                &&& final(self).clock_reset_status == old(self).clock_reset_status
                &&& final(self).counter_suppression_cycles == old(self).counter_suppression_cycles
            }),
    {
        let value = cpu_pinout.data_bus;
        let d = value & 0b0001_0000 != 0;
        self.dmc.set_enabled(cpu_pinout, dmc_dma, clock.cycle_parity(), d);
        // This applies immediately, unlike the similar flag within DMC.
        self.dmc_enabled = d;

        self.noise.set_enabled(value & 0b0000_1000 != 0);
        self.triangle.set_enabled(value & 0b0000_0100 != 0);
        self.pulse_2.set_enabled(value & 0b0000_0010 != 0);
        self.pulse_1.set_enabled(value & 0b0000_0001 != 0);
    }

    // Upon RESET
    /// Disables the noise, triangle and pulse channels, silencing their length counters.
    pub fn disable_channels(&mut self)
        ensures
            *final(self) == (ApuRegisters {
                noise: crate::apu::noise_channel::NoiseChannel {
                    enabled: false,
                    length_counter: crate::apu::length_counter::LengthCounter { count: 0, ..old(self).noise.length_counter },
                    ..old(self).noise
                },
                triangle: TriangleChannel {
                    enabled: false,
                    length_counter: crate::apu::length_counter::LengthCounter { count: 0, ..old(self).triangle.length_counter },
                    ..old(self).triangle
                },
                pulse_2: PulseChannel {
                    enabled: false,
                    length_counter: crate::apu::length_counter::LengthCounter { count: 0, ..old(self).pulse_2.length_counter },
                    ..old(self).pulse_2
                },
                pulse_1: PulseChannel {
                    enabled: false,
                    length_counter: crate::apu::length_counter::LengthCounter { count: 0, ..old(self).pulse_1.length_counter },
                    ..old(self).pulse_1
                },
                ..*old(self)
            }),
    {
        self.noise.set_enabled(false);
        self.triangle.set_enabled(false);
        self.pulse_2.set_enabled(false);
        self.pulse_1.set_enabled(false);
    }

    // Write 0x4017
    /// Bit 7 of the data bus selects the five-step mode (applied when the clock resets), bit 6
    /// suppresses the frame IRQ (acknowledging it at once); the clock reset starts.
    pub fn write_frame_counter(&mut self, clock: &ApuClock, cpu_pinout: &mut CpuPinout)
        ensures
            ({
                let value = old(cpu_pinout).data_bus;
                let suppress = value & 0b0100_0000 != 0;
                &&& *final(self) == (ApuRegisters {
                    pending_step_mode: if value & 0b1000_0000 == 0 { StepMode::FourStep } else { StepMode::FiveStep },
                    suppress_frame_irq: suppress,
                    frame_irq_status: if suppress { false } else { old(self).frame_irq_status },
                    clock_reset_status: ClockResetStatus::Pending,
                    ..*old(self)
                })
                &&& *final(cpu_pinout) == if suppress {
                    CpuPinout { frame_irq: false, ..*old(cpu_pinout) }
                } else {
                    *old(cpu_pinout)
                }
            }),
    {
        let value = cpu_pinout.data_bus;
        self.pending_step_mode = if value & 0b1000_0000 == 0 { StepMode::FourStep } else { StepMode::FiveStep };
        self.suppress_frame_irq = value & 0b0100_0000 != 0;
        if self.suppress_frame_irq {
            cpu_pinout.acknowledge_frame_irq();
            self.frame_irq_status = false;
        }

        self.clock_reset_status.initialize();
    }

    /// One CPU cycle: the suppression countdown, the step mode update, the frame IRQ, the frame
    /// sequence (on PUT cycles), the length counters' pending values, and the pulse and noise
    /// timers.
    pub fn tick(&mut self, clock: &mut ApuClock, cpu_pinout: &mut CpuPinout, dmc_dma: &mut DmcDma)
        ensures
            ({
                let parity = old(clock)@.parity;
                let counted_down = ApuRegisters {
                    counter_suppression_cycles: if old(self).counter_suppression_cycles > 0 {
                        (old(self).counter_suppression_cycles - 1) as u8
                    } else {
                        0
                    },
                    ..*old(self)
                };
                let (updated, clock1) = counted_down.spec_step_mode_updated(old(clock)@);
                let (irq_updated, pinout1) = updated.spec_frame_irq_updated(clock1, *old(cpu_pinout));
                let stepped = if parity == CycleParity::Put {
                    irq_updated.spec_counters_stepped(clock1)
                } else {
                    irq_updated
                };
                let applied = stepped.spec_pending_values_applied();
                &&& final(clock)@ == clock1
                &&& *final(cpu_pinout) == pinout1
                &&& final(dmc_dma)@ == old(dmc_dma)@
                &&& applied.pulse_1.spec_tick_result(parity, final(self).pulse_1)
                &&& applied.pulse_2.spec_tick_result(parity, final(self).pulse_2)
                &&& applied.noise.spec_tick_result(parity, final(self).noise)
                &&& final(self).triangle == applied.triangle
                &&& final(self).dmc == applied.dmc
                &&& final(self).pending_step_mode == applied.pending_step_mode
                &&& final(self).dmc_enabled == applied.dmc_enabled
                &&& final(self).frame_irq_status == applied.frame_irq_status
                &&& final(self).suppress_frame_irq == applied.suppress_frame_irq
                &&& final(self).should_acknowledge_frame_irq == applied.should_acknowledge_frame_irq
                &&& final(self).clock_reset_status == applied.clock_reset_status
                &&& final(self).counter_suppression_cycles == applied.counter_suppression_cycles
            }),
    {
        if self.counter_suppression_cycles > 0 {
            self.counter_suppression_cycles -= 1;
        }

        let parity = clock.cycle_parity();
        self.maybe_update_step_mode(clock);
        self.maybe_set_frame_irq_pending(clock, cpu_pinout);
        if parity == CycleParity::Put {
            self.maybe_decrement_counters(clock);
        }

        self.apply_length_counter_pending_values();
        self.pulse_1.tick(parity);
        self.pulse_2.tick(parity);
        self.noise.tick(parity);
    }

    fn maybe_update_step_mode(&mut self, clock: &mut ApuClock)
        ensures
            (*final(self), final(clock)@) == old(self).spec_step_mode_updated(old(clock)@),
    {
        if clock.cycle_parity() == CycleParity::Get {
            let is_ready = self.clock_reset_status.tick();
            if is_ready {
                clock.reset();
                clock.step_mode = self.pending_step_mode;
                if clock.step_mode == StepMode::FiveStep && self.counter_suppression_cycles == 0 {
                    self.decrement_length_counters();
                    self.counter_suppression_cycles = 2;
                }
            }
        }
    }

    fn maybe_decrement_counters(&mut self, clock: &ApuClock)
        ensures
            *final(self) == old(self).spec_counters_stepped(clock@),
    {
        let apu_cycle = clock.apu_cycle();
        if apu_cycle == FIRST_STEP || apu_cycle == THIRD_STEP {
            self.counter_suppression_cycles = 2;
        } else if apu_cycle == SECOND_STEP {
            self.decrement_length_counters();
            self.counter_suppression_cycles = 2;
        } else if apu_cycle == FOURTH_STEP && clock.step_mode == StepMode::FourStep {
            self.decrement_length_counters();
            self.counter_suppression_cycles = 2;
        } else if apu_cycle == FIFTH_STEP && clock.step_mode == StepMode::FiveStep {
            self.decrement_length_counters();
            self.counter_suppression_cycles = 2;
        }
    }

    fn decrement_length_counters(&mut self)
        ensures
            *final(self) == old(self).spec_length_counters_decremented(),
    {
        self.pulse_1.length_counter.decrement_towards_zero();
        self.pulse_2.length_counter.decrement_towards_zero();
        self.triangle.length_counter.decrement_towards_zero();
        self.noise.length_counter.decrement_towards_zero();
    }

    fn apply_length_counter_pending_values(&mut self)
        ensures
            *final(self) == old(self).spec_pending_values_applied(),
    {
        self.pulse_1.length_counter.apply_pending_values();
        self.pulse_2.length_counter.apply_pending_values();
        self.triangle.length_counter.apply_pending_values();
        self.noise.length_counter.apply_pending_values();
    }

    fn maybe_set_frame_irq_pending(&mut self, clock: &ApuClock, cpu_pinout: &mut CpuPinout)
        ensures
            (*final(self), *final(cpu_pinout)) == old(self).spec_frame_irq_updated(clock@, *old(cpu_pinout)),
    {
        if self.should_acknowledge_frame_irq && clock.cycle_parity() == CycleParity::Get {
            cpu_pinout.acknowledge_frame_irq();
            self.frame_irq_status = false;
            self.should_acknowledge_frame_irq = false;
        }

        if clock.step_mode == StepMode::FiveStep || clock.is_forced_reset_cycle() {
            return;
        }

        let apu_cycle = clock.apu_cycle();
        let is_start_of_first_cycle = apu_cycle == 0 && clock.cycle_parity() == CycleParity::Get;
        let is_last_cycle = apu_cycle == FOUR_STEP_FRAME_LENGTH - 1;
        if is_last_cycle {
            self.frame_irq_status = true;
        } else if is_start_of_first_cycle {
            self.frame_irq_status = !self.suppress_frame_irq;
        }

        let is_irq_cycle = is_last_cycle || is_start_of_first_cycle;
        if is_irq_cycle && !self.suppress_frame_irq {
            cpu_pinout.assert_frame_irq();
        }
    }
}

} // verus!
