use vstd::prelude::*;

use crate::apu::apu_registers::CycleParity;
use crate::apu::length_counter::{LengthCounter, TABLE};
use crate::apu::timer::Timer;

verus! {

/// The timer periods, in APU cycles, that a 4-bit period index selects.
pub const NTSC_PERIODS: [u16; 16] =
    [4, 8, 16, 32, 64, 96, 128, 160, 202, 254, 380, 508, 762, 1016, 2034, 4068];

/// The pseudo-random noise channel.
#[derive(Clone, Copy, Debug)]
pub struct NoiseChannel {
    pub enabled: bool,

    pub constant_volume: bool,
    /// A 4-bit volume, or the envelope's period.
    pub volume_or_envelope: u8,

    pub mode: bool,
    pub timer: Timer,
    pub length_counter: LengthCounter,

    pub shift_register: LinearFeedbackShiftRegister,
}

impl Default for NoiseChannel {
    fn default() -> (channel: NoiseChannel)
        ensures
            !channel.enabled,
            !channel.constant_volume,
            channel.volume_or_envelope == 0,
            !channel.mode,
            channel.timer == (Timer { period: 0, index: 0 }),
            channel.length_counter == (LengthCounter { count: 0, pending_count: None, count_decremented: false, halt: false, pending_halt_value: None }),
            channel.shift_register@ == 1,
    {
        NoiseChannel {
            enabled: false,

            constant_volume: false,
            volume_or_envelope: 0,

            mode: false,
            timer: Timer::default(),
            length_counter: LengthCounter::default(),

            shift_register: LinearFeedbackShiftRegister::new(),
        }
    }
}

impl NoiseChannel {
    /// The volume fits in 4 bits.
    pub open spec fn inv(&self) -> bool {
        self.volume_or_envelope < 16
    }

    // Write 0x400C
    /// Bit 5 halts the length counter, bit 4 selects a constant volume, bits 3-0 are the volume
    /// or envelope period.
    pub fn set_control(&mut self, value: u8)
        ensures
            final(self).inv(),
            *final(self) == (NoiseChannel {
                length_counter: LengthCounter { pending_halt_value: Some(value & 0b0010_0000 != 0), ..old(self).length_counter },
                constant_volume: value & 0b0001_0000 != 0,
                volume_or_envelope: value & 0b0000_1111,
                ..*old(self)
            }),
    {
        assert(value & 0b0000_1111 < 16) by (bit_vector);
        self.length_counter.start_halt(value & 0b0010_0000 != 0);
        self.constant_volume = value & 0b0001_0000 != 0;
        self.volume_or_envelope = value & 0b0000_1111;
    }

    // Write 0x400E
    /// Bit 7 selects the short (93-step) mode, bits 3-0 the timer period; the timer restarts.
    pub fn set_loop_and_period(&mut self, value: u8)
        ensures
            *final(self) == (NoiseChannel {
                mode: value & 0b1000_0000 != 0,
                timer: Timer { period: NTSC_PERIODS[(value & 0b0000_1111) as int], index: NTSC_PERIODS[(value & 0b0000_1111) as int] },
                ..*old(self)
            }),
    {
        assert(value & 0b0000_1111 < 16) by (bit_vector);
        self.mode = value & 0b1000_0000 != 0;
        let period = NTSC_PERIODS[(value & 0b0000_1111) as usize];
        self.timer.set_period_and_reset_index(period);
    }

    // Write 0x400F
    /// Bits 7-3 reload the length counter, if the channel is enabled.
    pub fn set_length(&mut self, value: u8)
        ensures
            *final(self) == if old(self).enabled {
                NoiseChannel {
                    length_counter: LengthCounter {
                        pending_count: Some(TABLE[(value >> 3u8) as int]),
                        count_decremented: false,
                        ..old(self).length_counter
                    },
                    ..*old(self)
                }
            } else {
                *old(self)
            },
    {
        if self.enabled {
            assert(value >> 3u8 < 0x20) by (bit_vector);
            self.length_counter.start_reload(value >> 3);
        }
    }

    // Write 0x4015
    /// Disabling the channel silences its length counter at once.
    pub fn set_enabled(&mut self, enabled: bool)
        ensures
            *final(self) == (NoiseChannel {
                enabled,
                length_counter: if enabled {
                    old(self).length_counter
                } else {
                    LengthCounter { count: 0, ..old(self).length_counter }
                },
                ..*old(self)
            }),
    {
        self.enabled = enabled;
        if !self.enabled {
            self.length_counter.set_to_zero();
        }
    }

    /// The channel is active while its length counter is above zero.
    pub fn active(&self) -> (active: bool)
        ensures
            active == (self.length_counter.count != 0),
    {
        !self.length_counter.is_zero()
    }

    /// `next` is this channel after a tick on a cycle of the given parity: nothing happens on a
    /// GET cycle; on a PUT cycle the timer counts down, and when it wraps around the shift
    /// register steps, with feedback from bit 6 in short mode and from bit 1 otherwise.
    pub open spec fn spec_tick_result(self, parity: CycleParity, next: NoiseChannel) -> bool {
        if parity == CycleParity::Get {
            next == self
        } else {
            let (timer, triggered) = self.timer.spec_ticked();
            &&& next.timer == timer
            &&& next.shift_register@ == if triggered {
                spec_lfsr_step(self.shift_register@, if self.mode { 6 } else { 1 })
            } else {
                self.shift_register@
            }
            &&& next.length_counter == self.length_counter
            &&& next.enabled == self.enabled
            &&& next.mode == self.mode
            &&& next.constant_volume == self.constant_volume
            &&& next.volume_or_envelope == self.volume_or_envelope
        }
    }

    /// On a PUT cycle the timer counts down; when it wraps around the shift register steps, with
    /// feedback from bit 6 in short mode and from bit 1 otherwise.
    pub fn tick(&mut self, parity: CycleParity)
        ensures
            old(self).spec_tick_result(parity, *final(self)),
    {
        if parity == CycleParity::Put {
            let triggered = self.timer.tick();
            if triggered {
                let feedback_index = if self.mode { 6 } else { 1 };
                self.shift_register.step(feedback_index);
            }
        }
    }

    /// The output: silence while the length counter is zero or the shift register's low bit is
    /// clear, the volume otherwise.
    pub fn sample_volume(&self) -> (volume: u8)
        ensures
            volume == if self.length_counter.count == 0 || self.shift_register@ & 1 != 1 {
                0
            } else {
                self.volume_or_envelope
            },
    {
        if self.length_counter.is_zero() || !self.shift_register.low_bit() {
            0
        } else {
            self.volume_or_envelope
        }
    }
}

/// One step of the 15-bit shift register: it shifts right, and the exclusive or of bit 0 and
/// bit `feedback_index` enters at bit 14.
pub open spec fn spec_lfsr_step(value: u16, feedback_index: u16) -> u16 {
    (value >> 1u16) | ((((value & 1) ^ ((value >> feedback_index) & 1))) << 14u16)
}

/// A 15-bit linear feedback shift register.
#[derive(Clone, Copy, Debug)]
pub struct LinearFeedbackShiftRegister(u16);

impl View for LinearFeedbackShiftRegister {
    type V = u16;

    closed spec fn view(&self) -> u16 {
        self.0
    }
}

impl LinearFeedbackShiftRegister {
    /// The register holds 15 bits.
    #[verifier::type_invariant]
    spec fn fits_15_bits(self) -> bool {
        self.0 < 0x8000
    }

    /// The register starts with only bit 0 set.
    pub fn new() -> (register: Self)
        ensures register@ == 1,
    {
        Self(0b000_0000_0000_0001)
    }

    pub fn step(&mut self, feedback_index: u8)
        requires feedback_index < 15,
        ensures final(self)@ == spec_lfsr_step(old(self)@, feedback_index as u16), final(self)@ < 0x8000,
    {
        proof { use_type_invariant(&*self); }
        let value = self.0;
        let index = feedback_index as u16;
        let feedback = (value & 1) ^ ((value >> index) & 1);
        let next = (value >> 1) | (feedback << 14);
        assert(next < 0x8000) by (bit_vector)
            requires value < 0x8000, feedback == (value & 1) ^ ((value >> index) & 1),
                next == (value >> 1u16) | (feedback << 14u16);
        self.0 = next;
    }

    pub fn low_bit(&self) -> (bit: bool)
        ensures bit == (self@ & 1 == 1),
    {
        self.0 & 1 == 1
    }
}

} // verus!
