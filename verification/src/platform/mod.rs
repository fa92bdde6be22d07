//! The platform memory map.
pub mod timer_registers;
pub mod uart_registers;

use vstd::prelude::*;

verus! {

/// RAM (base address and size in bytes)
pub const RAM_BASE: u32 = 0x0000_0000;
pub const RAM_SIZE: u32 = 0x0001_0000;

/// UART
pub const UART_BASE: u32 = 0x1000_0000;
pub const UART_SIZE: u32 = 0x100;

/// Timer
pub const TIMER_BASE: u32 = 0x1000_0100;
pub const TIMER_SIZE: u32 = 0x100;

/// Interrupt vector table
pub const INTERRUPT_VECTOR_BASE: u32 = 0x0000_8000;

} // verus!
