use vstd::prelude::*;

use crate::apu::length_counter::{LengthCounter, TABLE};
use crate::apu::timer::Timer;

verus! {

/// The triangle wave, as volume levels: down from 15 to 0, then up again.
pub const VOLUME_SEQUENCE: [u8; 0x20] = [
    15, 14, 13, 12, 11, 10,  9,  8,  7,  6,  5,  4,  3,  2,  1,  0,
     0,  1,  2,  3,  4,  5,  6,  7,  8,  9, 10, 11, 12, 13, 14, 15,
];

/// The triangle-wave channel.
#[derive(Clone, Copy, Debug)]
pub struct TriangleChannel {
    pub enabled: bool,

    pub counter_control: bool,
    /// 7 bits.
    pub linear_counter_reload_value: u8,
    /// 7 bits.
    pub linear_counter: u8,
    pub timer: Timer,
    pub length_counter: LengthCounter,

    pub linear_counter_reload: bool,

    /// A position in `VOLUME_SEQUENCE`.
    pub sequence_index: usize,
}

impl Default for TriangleChannel {
    fn default() -> (channel: Self)
        ensures
            channel == (TriangleChannel {
                enabled: false,
                counter_control: false,
                linear_counter_reload_value: 0,
                linear_counter: 0,
                timer: Timer { period: 0, index: 0 },
                length_counter: LengthCounter { count: 0, pending_count: None, count_decremented: false, halt: false, pending_halt_value: None },
                linear_counter_reload: false,
                sequence_index: 0,
            }),
    {
        TriangleChannel {
            enabled: false,
            counter_control: false,
            linear_counter_reload_value: 0,
            linear_counter: 0,
            timer: Timer::default(),
            length_counter: LengthCounter::default(),
            linear_counter_reload: false,
            sequence_index: 0,
        }
    }
}

impl TriangleChannel {
    /// The linear counter and its reload value fit in 7 bits; the sequence index is in range.
    pub open spec fn inv(&self) -> bool {
        self.linear_counter < 128 && self.linear_counter_reload_value < 128 && self.sequence_index < 0x20
    }

    /// The channel after its timer counts down once: the sequence advances when the timer wraps
    /// around while both counters are above zero.
    pub open spec fn spec_advanced(self) -> TriangleChannel {
        let (timer, wrapped_around) = self.timer.spec_ticked();
        TriangleChannel {
            timer,
            sequence_index: if wrapped_around && self.length_counter.count != 0 && self.linear_counter != 0 {
                ((self.sequence_index + 1) % 0x20) as usize
            } else {
                self.sequence_index
            },
            ..self
        }
    }

    // Write 0x4008
    /// Bit 7 controls the counters (it halts the length counter), bits 6-0 set the linear counter.
    pub fn write_control_byte(&mut self, value: u8)
        ensures
            *final(self) == (TriangleChannel {
                counter_control: value & 0b1000_0000 != 0,
                linear_counter: value & 0b0111_1111,
                length_counter: LengthCounter { halt: value & 0b1000_0000 != 0, ..old(self).length_counter },
                ..*old(self)
            }),
            old(self).inv() ==> final(self).inv(),
    {
        assert(value & 0b0111_1111 < 128) by (bit_vector);
        self.counter_control = (value & 0b1000_0000) != 0;
        self.linear_counter = value & 0b0111_1111;

        self.length_counter.set_halt(self.counter_control);
    }

    // Write 0x400A
    pub fn write_timer_low_byte(&mut self, value: u8)
        ensures
            final(self).timer.period == ((old(self).timer.period / 256) % 8) * 256 + value,
            final(self).timer.index == old(self).timer.index,
            *final(self) == (TriangleChannel { timer: final(self).timer, ..*old(self) }),
    {
        self.timer.set_period_low(value);
    }

    // Write 0x400B
    /// Bits 7-3 set the length counter (if the channel is enabled), bits 2-0 are the timer
    /// period's high bits; the timer restarts and the linear counter reloads.
    pub fn write_length_and_timer_high_byte(&mut self, value: u8)
        ensures
            final(self).length_counter == if old(self).enabled {
                LengthCounter { count: TABLE[(value >> 3u8) as int], ..old(self).length_counter }
            } else {
                old(self).length_counter
            },
            final(self).timer.period == (old(self).timer.period % 256) + (value % 8) * 256,
            final(self).timer.index == final(self).timer.period,
            final(self).linear_counter_reload,
            *final(self) == (TriangleChannel {
                length_counter: final(self).length_counter,
                timer: final(self).timer,
                linear_counter_reload: true,
                ..*old(self)
            }),
    {
        if self.enabled {
            assert((value & 0b1111_1000) >> 3u8 == value >> 3u8 && value >> 3u8 < 0x20) by (bit_vector);
            self.length_counter.set_count_from_lookup((value & 0b1111_1000) >> 3);
        }

        assert((value & 0b0000_0111) % 8 == value % 8) by (bit_vector);
        self.timer.set_period_high_and_reset_index(value & 0b0000_0111);

        self.linear_counter_reload = true;
    }

    // Write 0x4015
    /// Disabling the channel silences its length counter at once.
    pub fn set_enabled(&mut self, enabled: bool)
        ensures
            *final(self) == (TriangleChannel {
                enabled,
                length_counter: if enabled {
                    old(self).length_counter
                } else {
                    LengthCounter { count: 0, ..old(self).length_counter }
                },
                ..*old(self)
            }),
    {
        self.enabled = enabled;
        if !self.enabled {
            self.length_counter.set_to_zero();
        }
    }

    /// The channel is active while its length counter is above zero.
    pub fn active(&self) -> (active: bool)
        ensures
            active == (self.length_counter.count != 0),
    {
        !self.length_counter.is_zero()
    }

    /// A quarter frame: the timer counts down, then the linear counter reloads (if flagged) or
    /// counts down towards zero; the reload flag clears unless the counters are under control.
    pub fn step_quarter_frame(&mut self)
        requires
            old(self).inv(),
        ensures
            final(self).inv(),
            *final(self) == (TriangleChannel {
                linear_counter: if old(self).linear_counter_reload {
                    old(self).linear_counter_reload_value
                } else if old(self).linear_counter > 0 {
                    (old(self).linear_counter - 1) as u8
                } else {
                    0
                },
                linear_counter_reload: old(self).linear_counter_reload && old(self).counter_control,
                ..old(self).spec_advanced()
            }),
    {
        self.advance_timer_and_sequence_index();
        if self.linear_counter_reload {
            self.linear_counter = self.linear_counter_reload_value;
        } else if self.linear_counter > 0 {
            self.linear_counter = self.linear_counter - 1;
        }

        if !self.counter_control {
            self.linear_counter_reload = false;
        }
    }

    /// A half frame: the timer counts down.
    pub fn step_half_frame(&mut self)
        requires
            old(self).inv(),
        ensures
            final(self).inv(),
            *final(self) == old(self).spec_advanced(),
    {
        self.advance_timer_and_sequence_index();
    }

    fn advance_timer_and_sequence_index(&mut self)
        requires
            old(self).inv(),
        ensures
            final(self).inv(),
            *final(self) == old(self).spec_advanced(),
    {
        let wrapped_around = self.timer.tick();
        if wrapped_around && !self.length_counter.is_zero() && self.linear_counter != 0 {
            self.sequence_index = (self.sequence_index + 1) % 0x20;
        }
    }
}

} // verus!
