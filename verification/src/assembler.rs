pub mod assembler;
pub mod raw_mem;
