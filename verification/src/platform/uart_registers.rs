//! UART register offsets.
use vstd::prelude::*;

verus! {

/// Reading takes the oldest received byte (0 when none); writing transmits.
pub const DATA: u32 = 0x00;
/// 1 while a received byte is waiting, else 0.
pub const STATUS: u32 = 0x04;
/// Reserved.
pub const CONTROL: u32 = 0x08;

} // verus!
