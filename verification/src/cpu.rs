pub mod address;
pub mod dma_transfer;
pub mod dmc_dma;
pub mod instruction;
pub mod memory;
pub mod oam_dma;
pub mod port_access;
pub mod status;
pub mod cpu;
pub mod cpu_laws;
pub mod cpu_mode;
pub mod cycle_action;
pub mod step;
pub mod step_action;
pub mod step_execution;
