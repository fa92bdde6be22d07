//! Timer register offsets.
use vstd::prelude::*;

verus! {

/// The 32-bit counter, little-endian, bytes 0..4.
pub const COUNTER: u32 = 0x00;
/// The 32-bit compare value, little-endian, bytes 4..8.
pub const COMPARE: u32 = 0x04;
/// Interrupt-pending flag; any write acknowledges it.
pub const STATUS: u32 = 0x08;

} // verus!
