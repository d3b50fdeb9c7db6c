use vstd::prelude::*;

use crate::apu::apu_registers::CycleParity;
use crate::apu::length_counter::LengthCounter;
use crate::apu::timer::Timer;
use crate::util::{bit_at, get_bit};

verus! {

//                  Sweep -----> Timer
//                    |            |
//                    |            |
//                    |            v
//                    |        Sequencer   Length Counter
//                    |            |             |
//                    |            |             |
//                    v            v             v
// Envelope -------> Gate -----> Gate -------> Gate ---> (to mixer)
/// A square-wave channel.
#[derive(Clone, Copy, Debug)]
pub struct PulseChannel {
    pub length_counter: LengthCounter,

    pub enabled: bool,

    pub constant_volume: bool,
    /// A 4-bit volume, or the envelope's period.
    pub volume_or_envelope: u8,

    pub frequency_timer: Timer,
    pub sequencer: Sequencer,
}

impl Default for PulseChannel {
    fn default() -> (channel: Self)
        ensures
            channel.length_counter == (LengthCounter { count: 0, pending_count: None, count_decremented: false, halt: false, pending_halt_value: None }),
            !channel.enabled,
            !channel.constant_volume,
            channel.volume_or_envelope == 0,
            channel.frequency_timer == (Timer { period: 0, index: 0 }),
            channel.sequencer@ == (SequencerView { index: 0, duty: Duty::Low }),
    {
        PulseChannel {
            length_counter: LengthCounter::default(),
            enabled: false,
            constant_volume: false,
            volume_or_envelope: 0,
            frequency_timer: Timer::default(),
            sequencer: Sequencer::default(),
        }
    }
}

impl PulseChannel {
    /// The volume fits in 4 bits.
    pub open spec fn inv(&self) -> bool {
        self.volume_or_envelope < 16
    }

    // Write $4000 or $4004
    /// Bits 7-6 select the duty, bit 5 halts the length counter, bit 4 selects a constant volume,
    /// bits 3-0 are the volume or envelope period.
    pub fn write_control_byte(&mut self, value: u8)
        ensures
            final(self).inv(),
            final(self).sequencer@ == (SequencerView { duty: Duty::spec_from_u2(value >> 6u8), ..old(self).sequencer@ }),
            final(self).length_counter == (LengthCounter { pending_halt_value: Some(value & 0b0010_0000 != 0), ..old(self).length_counter }),
            final(self).constant_volume == (value & 0b0001_0000 != 0),
            final(self).volume_or_envelope == value & 0b0000_1111,
            final(self).enabled == old(self).enabled,
            final(self).frequency_timer == old(self).frequency_timer,
    {
        assert(value >> 6u8 < 4 && value & 0b0000_1111 < 16) by (bit_vector);
        self.sequencer.set_duty(Duty::from_u2(value >> 6));
        self.length_counter.start_halt(value & 0b0010_0000 != 0);
        self.constant_volume = value & 0b0001_0000 != 0;
        self.volume_or_envelope = value & 0b0000_1111;
    }

    // Write $4001 or $4005
    /// Sweep writes have no effect yet.
    pub fn write_sweep_byte(&mut self, _value: u8)
        ensures
            *final(self) == *old(self),
    {
    }

    // Write $4002 or $4006
    pub fn write_timer_low_byte(&mut self, value: u8)
        ensures
            final(self).frequency_timer.period == ((old(self).frequency_timer.period / 256) % 8) * 256 + value,
            final(self).frequency_timer.index == old(self).frequency_timer.index,
            final(self).length_counter == old(self).length_counter,
            final(self).sequencer@ == old(self).sequencer@,
            final(self).enabled == old(self).enabled,
            final(self).constant_volume == old(self).constant_volume,
            final(self).volume_or_envelope == old(self).volume_or_envelope,
    {
        self.frequency_timer.set_period_low(value);
    }

    // Write $4003 or $4007
    /// Bits 7-3 reload the length counter (if the channel is enabled), bits 2-0 are the timer
    /// period's high bits; the sequencer and the timer restart.
    pub fn write_length_and_timer_high_byte(&mut self, value: u8)
        ensures
            final(self).length_counter == if old(self).enabled {
                LengthCounter {
                    pending_count: Some(crate::apu::length_counter::TABLE[(value >> 3u8) as int]),
                    count_decremented: false,
                    ..old(self).length_counter
                }
            } else {
                old(self).length_counter
            },
            final(self).sequencer@ == (SequencerView { index: 0, ..old(self).sequencer@ }),
            final(self).frequency_timer.period == (old(self).frequency_timer.period % 256) + (value % 8) * 256,
            final(self).frequency_timer.index == final(self).frequency_timer.period,
            final(self).enabled == old(self).enabled,
            final(self).constant_volume == old(self).constant_volume,
            final(self).volume_or_envelope == old(self).volume_or_envelope,
    {
        if self.enabled {
            assert((value & 0b1111_1000) >> 3u8 == value >> 3u8 && value >> 3u8 < 0x20) by (bit_vector);
            self.length_counter.start_reload((value & 0b1111_1000) >> 3);
        }

        self.sequencer.reset();
        assert((value & 0b0000_0111) % 8 == value % 8) by (bit_vector);
        self.frequency_timer.set_period_high_and_reset_index(value & 0b0000_0111);
    }

    // Write 0x4015
    /// Disabling the channel silences its length counter at once.
    pub fn set_enabled(&mut self, enabled: bool)
        ensures
            *final(self) == (PulseChannel {
                enabled,
                length_counter: if enabled {
                    old(self).length_counter
                } else {
                    LengthCounter { count: 0, ..old(self).length_counter }
                },
                ..*old(self)
            }),
    {
        self.enabled = enabled;
        if !self.enabled {
            self.length_counter.set_to_zero();
        }
    }

    /// The channel is active while its length counter is above zero.
    pub fn active(&self) -> (active: bool)
        ensures
            active == (self.length_counter.count != 0),
    {
        !self.length_counter.is_zero()
    }

    /// `next` is this channel after a tick on a cycle of the given parity: nothing happens on a
    /// GET cycle; on a PUT cycle the timer counts down, and the sequencer steps when it wraps
    /// around.
    pub open spec fn spec_tick_result(self, parity: CycleParity, next: PulseChannel) -> bool {
        if parity == CycleParity::Get {
            next == self
        } else {
            let (timer, triggered) = self.frequency_timer.spec_ticked();
            &&& next.frequency_timer == timer
            &&& next.sequencer@ == if triggered {
                self.sequencer@.spec_stepped()
            } else {
                self.sequencer@
            }
            &&& next.length_counter == self.length_counter
            &&& next.enabled == self.enabled
            &&& next.constant_volume == self.constant_volume
            &&& next.volume_or_envelope == self.volume_or_envelope
        }
    }

    /// On a PUT cycle the timer counts down, and the sequencer steps when it wraps around.
    pub fn tick(&mut self, parity: CycleParity)
        ensures
            old(self).spec_tick_result(parity, *final(self)),
    {
        if parity == CycleParity::Put {
            let triggered = self.frequency_timer.tick();
            if triggered {
                self.sequencer.step();
            }
        }
    }

    /// The output: the volume while the channel is enabled, on duty, not too high-pitched
    /// (period of 8 or more) and its length counter above zero; otherwise silence.
    pub fn sample_volume(&self) -> (volume: u8)
        ensures
            volume == if self.enabled && self.sequencer@.spec_on_duty() && self.frequency_timer.period >= 8
                && self.length_counter.count != 0 {
                self.volume_or_envelope
            } else {
                0
            },
    {
        let on_duty = self.sequencer.on_duty();
        let non_short_period = self.frequency_timer.period() >= 8;
        let non_zero_length = !self.length_counter.is_zero();

        let enabled = self.enabled && on_duty && non_short_period && non_zero_length;
        if enabled {
            self.volume_or_envelope
        } else {
            0
        }
    }
}

/// Steps through the eight positions of a duty cycle.
#[derive(Clone, Copy, Debug)]
pub struct Sequencer {
    index: u32,
    duty: Duty,
}

/// The position and duty of a `Sequencer`.
pub struct SequencerView {
    pub index: u32,
    pub duty: Duty,
}

impl View for Sequencer {
    type V = SequencerView;

    closed spec fn view(&self) -> SequencerView {
        SequencerView { index: self.index, duty: self.duty }
    }
}

impl SequencerView {
    /// The sequencer one step on, wrapping after eight steps.
    pub open spec fn spec_stepped(self) -> SequencerView {
        SequencerView { index: ((self.index + 1) % 8) as u32, ..self }
    }

    /// Whether the duty cycle's waveform is high at the current position (bit `index` of the
    /// duty's pattern).
    pub open spec fn spec_on_duty(self) -> bool {
        bit_at(self.duty.spec_bits(), self.index)
    }
}

impl Default for Sequencer {
    fn default() -> (sequencer: Self)
        ensures sequencer@ == (SequencerView { index: 0, duty: Duty::Low }),
    {
        Sequencer { index: 0, duty: Duty::Low }
    }
}

impl Sequencer {
    /// The position is one of the eight steps.
    #[verifier::type_invariant]
    spec fn index_in_range(self) -> bool {
        self.index < 8
    }

    pub fn reset(&mut self)
        ensures final(self)@ == (SequencerView { index: 0, ..old(self)@ }),
    {
        self.index = 0;
    }

    pub fn step(&mut self)
        ensures final(self)@ == old(self)@.spec_stepped(),
    {
        proof { use_type_invariant(&*self); }
        self.index = (self.index + 1) % 8;
    }

    pub fn on_duty(&self) -> (on_duty: bool)
        ensures on_duty == self@.spec_on_duty(),
    {
        proof { use_type_invariant(self); }
        get_bit(self.duty.bits(), self.index)
    }

    pub fn set_duty(&mut self, duty: Duty)
        ensures final(self)@ == (SequencerView { duty, ..old(self)@ }),
    {
        proof { use_type_invariant(&*self); }
        self.duty = duty;
    }
}

/// The four duty cycles of a pulse wave.
#[derive(Clone, Copy, Debug, PartialEq, Eq, Structural)]
pub enum Duty {
    Low,
    Medium,
    High,
    Negated,
}

impl Default for Duty {
    fn default() -> (duty: Self)
        ensures duty == Duty::Low,
    {
        Duty::Low
    }
}

impl Duty {
    /// The eight-step waveform of the duty cycle, one bit per step.
    pub open spec fn spec_bits(self) -> u8 {
        match self {
            Duty::Low => 0b0100_0000,
            Duty::Medium => 0b0110_0000,
            Duty::High => 0b0111_1000,
            Duty::Negated => 0b1001_1111,
        }
    }

    /// The duty that a 2-bit field selects.
    pub open spec fn spec_from_u2(value: u8) -> Duty {
        if value == 0 {
            Duty::Low
        } else if value == 1 {
            Duty::Medium
        } else if value == 2 {
            Duty::High
        } else {
            Duty::Negated
        }
    }

    pub fn bits(self) -> (bits: u8)
        ensures bits == self.spec_bits(),
    {
        match self {
            Duty::Low => 0b0100_0000,
            Duty::Medium => 0b0110_0000,
            Duty::High => 0b0111_1000,
            Duty::Negated => 0b1001_1111,
        }
    }

    /// The duty of a 2-bit field.
    pub fn from_u2(value: u8) -> (duty: Duty)
        requires value < 4,
        ensures duty == Duty::spec_from_u2(value),
    {
        if value == 0 {
            Duty::Low
        } else if value == 1 {
            Duty::Medium
        } else if value == 2 {
            Duty::High
        } else {
            Duty::Negated
        }
    }
}

} // verus!
