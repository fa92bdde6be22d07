//! A RISC-V (RV32IM) emulator: CPU, decoder, MMU, memory-mapped bus and devices,
//! each operation specified over a mathematical model of the machine state.

pub mod assembler;
pub mod bits;
pub mod bus;
pub mod cpu;
pub mod devices;
pub mod interrupt;
pub mod machine;
pub mod mmu;
pub mod platform;
pub mod utils;
