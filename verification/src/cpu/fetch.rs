//! Instruction fetch and the fetch-decode-execute step.
use vstd::prelude::*;
use super::cpu::{CPU, CpuState, SATP, trap};
use super::decode::{decode_spec, lemma_decoded_regs_in_range};
use super::execute::{Outcome, execute_spec, operands_valid, stopped};
use super::types::{Address, MachineFault, RawInstruction, wrap_add};
use crate::bus::{Bus, Region, bus_read32, first_fault};
use crate::mmu::{AccessType, MMU, translate_spec};

verus! {

/// Fetching at the pc: the bus after the translation and the read, and either
/// a fault (the machine cannot go on), an instruction page fault's cause, or
/// the instruction word; the pc advances by 4 when a word is fetched.
pub open spec fn fetch_spec(c: CpuState, rs: Seq<Region>) -> (
    CpuState,
    Seq<Region>,
    Result<Result<u32, u32>, MachineFault>,
) {
    let (rs1, t) = translate_spec(c.pc, AccessType::Fetch, c.csrs[SATP as int], c.mode, rs);
    match t {
        Err(f) => (c, rs1, Err(f)),
        Ok(Err(cause)) => (c, rs1, Ok(Err(cause))),
        Ok(Ok(pa)) => match first_fault(rs1, pa, 0, 4) {
            Some(f) => (c, rs1, Err(f)),
            None => {
                let (rs2, w) = bus_read32(rs1, pa);
                (CpuState { pc: wrap_add(c.pc, 4), ..c }, rs2, Ok(Ok(w)))
            },
        },
    }
}

/// One instruction: fetch (an instruction page fault traps with the pc of
/// the instruction saved), decode, execute.
pub open spec fn step_spec(c: CpuState, rs: Seq<Region>) -> Outcome {
    let (c1, rs1, f) = fetch_spec(c, rs);
    match f {
        Err(fault) => stopped(c1, rs1, fault),
        Ok(Err(cause)) => Outcome { cpu: trap(c1, cause, c1.pc), bus: rs1, result: Ok(()) },
        Ok(Ok(w)) => match decode_spec(w) {
            None => stopped(c1, rs1, MachineFault::UnknownInstruction(w)),
            Some(inst) => execute_spec(c1, rs1, inst),
        },
    }
}

impl CPU {
    /// Fetches the instruction at the pc through the MMU. `Err` when the bus
    /// cannot serve the access; `Ok(Err(cause))` on an instruction page fault;
    /// otherwise the word, with the pc moved past it.
    pub fn fetch(&mut self, bus: &mut Bus) -> (r: Result<Result<RawInstruction, u32>, MachineFault>)
        ensures
            ({
                let (c, rs, f) = fetch_spec(old(self)@, old(bus)@);
                &&& final(self)@ == c
                &&& final(bus)@ == rs
                &&& match (r, f) {
                    (Ok(Ok(inst)), Ok(Ok(w))) => inst.0 == w,
                    (Ok(Err(a)), Ok(Err(b))) => a == b,
                    (Err(a), Err(b)) => a == b,
                    _ => false,
                }
            }),
    {
        proof {
            self.lemma_wf();
        }
        let satp = self.csr_file.read(SATP);
        match MMU::translate(self.pc.0, &AccessType::Fetch, satp, self.mode, bus) {
            Err(f) => Err(f),
            Ok(Err(cause)) => Ok(Err(cause)),
            Ok(Ok(paddr)) => {
                if let Some(f) = bus.check_access(Address(paddr), 4) {
                    return Err(f);
                }
                let inst = bus.read32(Address(paddr));
                self.pc = self.pc.offset(4);
                Ok(Ok(RawInstruction(inst)))
            },
        }
    }

    /// Fetches, decodes and executes one instruction. `Err` where the machine
    /// cannot go on: an access the bus cannot serve, or an instruction word
    /// that does not decode.
    pub fn step(&mut self, bus: &mut Bus) -> (r: Result<(), MachineFault>)
        ensures
            (Outcome { cpu: final(self)@, bus: final(bus)@, result: r }) == step_spec(
                old(self)@,
                old(bus)@,
            ),
    {
        let pc = self.pc.0;
        match self.fetch(bus) {
            Err(f) => Err(f),
            Ok(Err(cause)) => {
                self.enter_trap(cause, pc);
                Ok(())
            },
            Ok(Ok(raw_inst)) => {
                let w = raw_inst.0;
                match Self::decode(raw_inst) {
                    None => Err(MachineFault::UnknownInstruction(w)),
                    Some(inst) => {
                        proof {
                            lemma_decoded_regs_in_range(w);
                            crate::bits::lemma_and_le(w >> 20, 0xFFF);
                        }
                        self.execute(inst, bus)
                    },
                }
            },
        }
    }
}

} // verus!
