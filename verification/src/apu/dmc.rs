use vstd::prelude::*;

use crate::apu::apu_registers::CycleParity;
use crate::cpu::dmc_dma::{DmcDma, DmcDmaState, DmcDmaView};
use crate::memory::cpu_address::CpuAddress;
use crate::memory::cpu_pinout::CpuPinout;

verus! {

/// The sample periods, in CPU cycles, that a 4-bit rate index selects.
pub const NTSC_PERIODS: [u16; 16] =
    [428, 380, 340, 320, 286, 254, 226, 214, 190, 160, 142, 128, 106,  84,  72,  54];

/// The delta modulation channel.
#[derive(Clone, Copy, Debug, PartialEq, Eq, Structural)]
pub struct Dmc {
    pub muted: bool,

    pub irq_enabled: bool,

    pub should_loop: bool,
    /// A 7-bit volume.
    pub volume: u8,

    pub period: u16,
    pub cycles_remaining: u16,

    pub sample_start_address: CpuAddress,
    pub sample_address: CpuAddress,
    pub sample_buffer: Option<u8>,
    pub sample_shifter: u8,
    pub sample_length: u16,
    pub sample_bytes_remaining: u16,

    /// Values from 0 to 8.
    pub bits_remaining: u8,
}

impl Default for Dmc {
    fn default() -> (dmc: Self)
        ensures
            dmc.inv(),
            dmc.muted,
            !dmc.irq_enabled,
            !dmc.should_loop,
            dmc.volume == 0,
            dmc.period == 427,
            dmc.cycles_remaining == 427,
            dmc.sample_start_address@ == 0xC000,
            dmc.sample_address@ == 0xC000,
            dmc.sample_buffer is None,
            dmc.sample_shifter == 0,
            dmc.sample_length == 1,
            dmc.sample_bytes_remaining == 0,
            dmc.bits_remaining == 8,
    {
        Dmc {
            muted: true,
            irq_enabled: false,
            should_loop: false,
            volume: 0,
            period: NTSC_PERIODS[0] - 1,
            cycles_remaining: NTSC_PERIODS[0] - 1,
            sample_start_address: CpuAddress::new(0xC000),
            sample_address: CpuAddress::new(0xC000),
            sample_buffer: None,
            sample_shifter: 0,
            sample_length: 1,
            sample_bytes_remaining: 0,

            bits_remaining: 8,
        }
    }
}

impl Dmc {
    /// The volume fits in 7 bits and at most 8 bits remain.
    pub open spec fn inv(self) -> bool {
        self.volume < 128 && self.bits_remaining <= 8
    }

    // 0x4010
    pub fn write_control_byte(&mut self, cpu_pinout: &mut CpuPinout, value: u8)
        requires old(self).inv(),
        ensures
            final(self).inv(),
            *final(self) == (Dmc {
                irq_enabled: value & 0b1000_0000 != 0,
                should_loop: value & 0b0100_0000 != 0,
                period: (NTSC_PERIODS[(value & 0b0000_1111) as int] - 1) as u16,
                ..*old(self)
            }),
            *final(cpu_pinout) == if value & 0b1000_0000 != 0 {
                *old(cpu_pinout)
            } else {
                CpuPinout { dmc_irq: false, ..*old(cpu_pinout) }
            },
    {
        self.irq_enabled = (value & 0b1000_0000) != 0;
        self.should_loop = (value & 0b0100_0000) != 0;
        assert(value & 0b0000_1111 < 16) by (bit_vector);
        self.period = NTSC_PERIODS[(value & 0b0000_1111) as usize] - 1;
        if !self.irq_enabled {
            cpu_pinout.acknowledge_dmc_irq();
        }
    }

    // 0x4011
    pub fn write_volume(&mut self, value: u8)
        requires old(self).inv(),
        ensures final(self).inv(), *final(self) == (Dmc { volume: value & 0b0111_1111, ..*old(self) }),
    {
        assert(value & 0b0111_1111 < 128) by (bit_vector);
        self.volume = value & 0b0111_1111;
    }

    // 0x4012
    /// The sample starts at 0xC000 plus 64 times the value.
    pub fn write_sample_start_address(&mut self, value: u8)
        requires old(self).inv(),
        ensures
            final(self).inv(),
            final(self).sample_start_address@ == 0xC000 + value * 64,
            *final(self) == (Dmc { sample_start_address: final(self).sample_start_address, ..*old(self) }),
    {
        assert(0xC000u16 | ((value as u16) << 6u16) == 0xC000 + value * 64) by (bit_vector);
        self.sample_start_address = CpuAddress::new(0xC000 | ((value as u16) << 6));
    }

    // 0x4013
    /// The sample is 16 times the value, plus one, bytes long.
    pub fn write_sample_length(&mut self, value: u8)
        requires old(self).inv(),
        ensures final(self).inv(), *final(self) == (Dmc { sample_length: (value * 16 + 1) as u16, ..*old(self) }),
    {
        assert(((value as u16) << 4u16) | 1 == (value * 16 + 1) as u16) by (bit_vector);
        self.sample_length = ((value as u16) << 4) | 1;
    }

    /// The channel after a write of its enable bit.
    pub open spec fn spec_set_enabled(self, enabled: bool) -> Dmc {
        if !enabled {
            Dmc { sample_bytes_remaining: 0, ..self }
        } else if self.sample_bytes_remaining == 0 {
            Dmc { sample_bytes_remaining: self.sample_length, sample_address: self.sample_start_address, ..self }
        } else {
            self
        }
    }

    /// Whether enabling the channel starts a load DMA: no bytes remain and the buffer is empty.
    pub open spec fn spec_starts_load(self, enabled: bool) -> bool {
        enabled && self.sample_bytes_remaining == 0 && self.sample_buffer is None
    }

    /// The DMA after a write of the channel's enable bit: a started load waits for the next GET
    /// cycle (skipping one if this is a GET cycle).
    pub open spec fn spec_dma_after_set_enabled(self, dma: DmcDmaView, parity: CycleParity, enabled: bool) -> DmcDmaView {
        if self.spec_starts_load(enabled) {
            DmcDmaView {
                latest_action: crate::cpu::dmc_dma::DmcDmaAction::DoNothing,
                state: if parity == CycleParity::Get { DmcDmaState::FirstSkip } else { DmcDmaState::WaitingForGet },
                ..dma
            }
        } else {
            dma
        }
    }

    // 0x4015
    /// Disabling clears the remaining bytes; enabling with no bytes left restarts the sample,
    /// and starts a load DMA if the sample buffer is empty (the DMA must then be idle).
    pub fn set_enabled(&mut self, cpu_pinout: &mut CpuPinout, dma: &mut DmcDma, parity: CycleParity, enabled: bool)
        requires
            old(self).inv(),
            old(self).spec_starts_load(enabled) ==> old(dma)@.state == DmcDmaState::Idle,
        ensures
            final(self).inv(),
            *final(cpu_pinout) == (CpuPinout { dmc_irq: false, ..*old(cpu_pinout) }),
            *final(self) == old(self).spec_set_enabled(enabled),
            final(dma)@ == old(self).spec_dma_after_set_enabled(old(dma)@, parity, enabled),
    {
        cpu_pinout.acknowledge_dmc_irq();

        if !enabled {
            self.sample_bytes_remaining = 0;
        } else if self.sample_bytes_remaining == 0 {
            self.sample_bytes_remaining = self.sample_length;
            self.sample_address = self.sample_start_address;

            if self.sample_buffer.is_none() {
                dma.start_load(parity);
            }
        }
    }

    // Upon RESET
    pub fn disable(&mut self, cpu_pinout: &mut CpuPinout)
        requires old(self).inv(),
        ensures
            final(self).inv(),
            *final(cpu_pinout) == (CpuPinout { dmc_irq: false, ..*old(cpu_pinout) }),
            *final(self) == (Dmc { sample_bytes_remaining: 0, ..*old(self) }),
    {
        cpu_pinout.acknowledge_dmc_irq();
        self.sample_bytes_remaining = 0;
    }

    /// Stores a fetched sample byte, if bytes remain, and moves to the next sample address
    /// (wrapping from 0xFFFF to 0x8000). The last byte loops the sample or raises the IRQ.
    pub fn set_sample_buffer(&mut self, cpu_pinout: &mut CpuPinout, value: u8)
        requires old(self).inv(),
        ensures
            final(self).inv(),
            old(self).sample_bytes_remaining == 0 ==> *final(self) == *old(self) && *final(cpu_pinout) == *old(cpu_pinout),
            old(self).sample_bytes_remaining > 0 ==> {
                let next_address: u16 = if old(self).sample_address@ == 0xFFFF { 0x8000 } else { (old(self).sample_address@ + 1) as u16 };
                let remaining = (old(self).sample_bytes_remaining - 1) as u16;
                let finished = remaining == 0;
                &&& final(self).sample_buffer == Some(value)
                &&& final(self).sample_address@ == if finished && old(self).should_loop { old(self).sample_start_address@ } else { next_address }
                &&& final(self).sample_bytes_remaining == if finished && old(self).should_loop { old(self).sample_length } else { remaining }
                &&& *final(self) == (Dmc {
                        sample_buffer: Some(value),
                        sample_address: final(self).sample_address,
                        sample_bytes_remaining: final(self).sample_bytes_remaining,
                        ..*old(self)
                    })
                &&& *final(cpu_pinout) == if finished && !old(self).should_loop && old(self).irq_enabled {
                        CpuPinout { dmc_irq: true, ..*old(cpu_pinout) }
                    } else {
                        *old(cpu_pinout)
                    }
            },
    {
        if self.sample_bytes_remaining > 0 {
            self.sample_buffer = Some(value);
            self.sample_address.inc();
            if self.sample_address.to_raw() == 0 {
                self.sample_address = CpuAddress::new(0x8000);
            }

            self.sample_bytes_remaining -= 1;
            if self.sample_bytes_remaining == 0 {
                if self.should_loop {
                    self.sample_bytes_remaining = self.sample_length;
                    self.sample_address = self.sample_start_address;
                } else if self.irq_enabled {
                    cpu_pinout.assert_dmc_irq();
                }
            }
        }
    }

    /// One PUT cycle of the output unit: counts down the current bit's cycles, then moves to
    /// the next bit; after the last bit it takes the sample buffer and may start a reload DMA
    /// (which must then be idle).
    pub fn execute_put_cycle(&mut self, dmc_dma: &mut DmcDma)
        requires
            old(self).inv(),
            old(self).cycles_remaining < 2 && old(self).bits_remaining <= 1 && old(self).sample_buffer is Some
                && old(self).sample_bytes_remaining > 0 ==> old(dmc_dma)@.state == DmcDmaState::Idle,
        ensures
            final(self).inv(),
            old(self).cycles_remaining >= 2 ==> *final(self) == (Dmc { cycles_remaining: (old(self).cycles_remaining - 2) as u16, ..*old(self) })
                && final(dmc_dma)@ == old(dmc_dma)@,
            old(self).cycles_remaining < 2 && old(self).bits_remaining > 1 ==> *final(self) == (Dmc {
                    cycles_remaining: old(self).period,
                    bits_remaining: (old(self).bits_remaining - 1) as u8,
                    ..*old(self)
                }) && final(dmc_dma)@ == old(dmc_dma)@,
            old(self).cycles_remaining < 2 && old(self).bits_remaining <= 1 ==> *final(self) == (Dmc {
                    cycles_remaining: old(self).period,
                    bits_remaining: 8,
                    muted: old(self).sample_buffer is None,
                    sample_buffer: None,
                    sample_shifter: match old(self).sample_buffer { Some(sample) => sample, None => old(self).sample_shifter },
                    ..*old(self)
                })
                && final(dmc_dma)@ == if old(self).sample_buffer is Some && old(self).sample_bytes_remaining > 0 {
                    old(dmc_dma)@.spec_start_reload()
                } else {
                    old(dmc_dma)@
                },
    {
        if self.cycles_remaining >= 2 {
            self.cycles_remaining -= 2;
            return;
        }

        self.cycles_remaining = self.period;
        self.bits_remaining = self.bits_remaining.saturating_sub(1);
        if self.bits_remaining > 0 {
            return;
        }

        self.bits_remaining = 8;
        self.muted = self.sample_buffer.is_none();
        if let Some(sample) = self.sample_buffer {
            self.sample_buffer = None;
            self.sample_shifter = sample;
            if self.sample_bytes_remaining > 0 {
                dmc_dma.start_reload();
            }
        }
    }

    pub fn active(&self) -> (active: bool)
        ensures active == (self.sample_bytes_remaining > 0),
    {
        self.sample_bytes_remaining > 0
    }

    pub fn dma_sample_address(&self) -> (address: CpuAddress)
        ensures address == self.sample_address,
    {
        self.sample_address
    }
}

} // verus!
