pub mod cpu_address;
pub mod cpu_pinout;
pub mod read_result;
