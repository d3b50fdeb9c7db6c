pub mod apu_clock;
pub mod apu_registers;
pub mod frame_counter;
pub mod length_counter;
pub mod timer;
pub mod dmc;
pub mod pulse_channel;
pub mod triangle_channel;
pub mod noise_channel;
pub mod sweep;
