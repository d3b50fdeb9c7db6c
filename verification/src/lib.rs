pub mod address;
pub mod analysis;
pub mod apu;
pub mod assembler;
pub mod cartridge;
pub mod config;
pub mod counter;
pub mod controller;
pub mod cpu;
pub mod gui;
pub mod memory;
pub mod ppu;
pub mod splitbits;
pub mod util;
