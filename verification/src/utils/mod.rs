//! Debugging aids.
use vstd::prelude::*;
use crate::cpu::CPU;

verus! {

/// A snapshot of the hart's program counter and integer registers.
pub struct RegisterDump {
    pub pc: u32,
    pub registers: Vec<u32>,
}

/// The program counter and all registers, for the host to print.
pub fn dump(cpu: &CPU) -> (r: RegisterDump)
    ensures
        r.pc == cpu@.pc,
        r.registers@ == cpu@.regs,
{
    let mut registers: Vec<u32> = Vec::new();
    let mut i: usize = 0;
    while i < 32
        invariant
            i <= 32,
            cpu@.regs.len() == 32,
            registers@ == cpu@.regs.subrange(0, i as int),
        decreases 32 - i,
    {
        registers.push(cpu.registers[i]);
        i = i + 1;
    }
    RegisterDump { pc: cpu.pc.0, registers }
}

} // verus!
