//! The hart: integer registers, program counter, CSR file, privilege mode, and
//! trap entry.
use vstd::prelude::*;
use super::types::{
    Address, INTERRUPT, PrivilegeMode, mode_bits, wrap_sub,
};
use crate::bits::lemma_status_fields;

verus! {

pub const MSTATUS: usize = 0x300;
pub const MISA: usize = 0x301;
pub const MEDELEG: usize = 0x302;
pub const MIDELEG: usize = 0x303;
pub const MIE: usize = 0x304;
pub const MTVEC: usize = 0x305;

pub const MSCRATCH: usize = 0x340;
pub const MEPC: usize = 0x341;
pub const MCAUSE: usize = 0x342;
pub const MTVAL: usize = 0x343;
pub const MIP: usize = 0x344;

/// Supervisor address translation and protection: bit 31 enables Sv32, bits
/// 21..0 hold the root page table's physical page number.
pub const SATP: usize = 0x180;

pub const CYCLE: usize = 0xC00;
pub const TIME: usize = 0xC01;
pub const INSTRET: usize = 0xC02;

pub const MSTATUS_MIE: u32 = 0x8;
pub const MSTATUS_MPIE: u32 = 0x80;

pub const MSTATUS_MPP_SHIFT: u32 = 11;
pub const MSTATUS_MPP_MASK: u32 = 0x1800;

/// Exception cause: illegal instruction.
pub const EXC_ILLEGAL_INSTRUCTION: u32 = 2;
/// Exception cause: environment call from User mode.
pub const EXC_ECALL_U: u32 = 8;
/// Exception cause: environment call from Supervisor mode.
pub const EXC_ECALL_S: u32 = 9;
/// Exception cause: environment call from Machine mode.
pub const EXC_ECALL_M: u32 = 11;

/// `mstatus.MIE`: global interrupt enable.
pub open spec fn mie_of(s: u32) -> bool {
    s & MSTATUS_MIE != 0
}

/// `mstatus.MPIE`: interrupt enable before the last trap.
pub open spec fn mpie_of(s: u32) -> bool {
    s & MSTATUS_MPIE != 0
}

/// `mstatus.MPP`: privilege mode before the last trap.
pub open spec fn mpp_of(s: u32) -> u32 {
    (s & MSTATUS_MPP_MASK) >> MSTATUS_MPP_SHIFT
}

/// `s` with the MIE bit set to `e`, every other bit kept.
pub open spec fn with_mie(s: u32, e: bool) -> u32 {
    if e {
        s | MSTATUS_MIE
    } else {
        s & !MSTATUS_MIE
    }
}

/// `s` with the MPIE bit set to `e`, every other bit kept.
pub open spec fn with_mpie(s: u32, e: bool) -> u32 {
    if e {
        s | MSTATUS_MPIE
    } else {
        s & !MSTATUS_MPIE
    }
}

/// `s` with the two MPP bits replaced by the low two bits of `mode`.
pub open spec fn with_mpp(s: u32, mode: u32) -> u32 {
    (s & !MSTATUS_MPP_MASK) | ((mode << MSTATUS_MPP_SHIFT) & MSTATUS_MPP_MASK)
}

/// The 4096 control and status registers.
#[derive(Debug)]
pub struct CSRFile {
    registers: [u32; 4096],
}

impl View for CSRFile {
    type V = Seq<u32>;

    closed spec fn view(&self) -> Seq<u32> {
        self.registers@
    }
}

impl CSRFile {
    /// There are exactly 4096 CSRs.
    pub proof fn lemma_len(&self)
        ensures
            self@.len() == 4096,
    {
    }

    /// All CSRs zero.
    pub fn new() -> (r: Self)
        ensures
            r@ == Seq::new(4096, |i: int| 0u32),
    {
        let r = Self { registers: [0; 4096] };
        assert(r@ =~= Seq::new(4096, |i: int| 0u32));
        r
    }

    pub fn read(&self, index: usize) -> (r: u32)
        requires
            index < 4096,
        ensures
            r == self@[index as int],
    {
        self.registers[index]
    }

    pub fn write(&mut self, index: usize, value: u32)
        requires
            index < 4096,
        ensures
            final(self)@ == old(self)@.update(index as int, value),
    {
        self.registers[index] = value;
    }

    /// Whether interrupts are globally enabled.
    pub fn mie_enabled(&self) -> (r: bool)
        ensures
            r == mie_of(self@[MSTATUS as int]),
    {
        self.read(MSTATUS) & MSTATUS_MIE != 0
    }

    pub fn set_mie(&mut self, enabled: bool)
        ensures
            final(self)@ == old(self)@.update(
                MSTATUS as int,
                with_mie(old(self)@[MSTATUS as int], enabled),
            ),
    {
        let mut status = self.read(MSTATUS);
        if enabled {
            status = status | MSTATUS_MIE;
        } else {
            status = status & !MSTATUS_MIE;
        }
        self.write(MSTATUS, status);
    }

    pub fn mpie(&self) -> (r: bool)
        ensures
            r == mpie_of(self@[MSTATUS as int]),
    {
        self.read(MSTATUS) & MSTATUS_MPIE != 0
    }

    pub fn set_mpie(&mut self, enabled: bool)
        ensures
            final(self)@ == old(self)@.update(
                MSTATUS as int,
                with_mpie(old(self)@[MSTATUS as int], enabled),
            ),
    {
        let mut status = self.read(MSTATUS);
        if enabled {
            status = status | MSTATUS_MPIE;
        } else {
            status = status & !MSTATUS_MPIE;
        }
        self.write(MSTATUS, status);
    }

    pub fn mpp(&self) -> (r: u32)
        ensures
            r == mpp_of(self@[MSTATUS as int]),
            r <= 3,
    {
        proof {
            lemma_status_fields(self@[MSTATUS as int], 0, false);
        }
        (self.read(MSTATUS) & MSTATUS_MPP_MASK) >> MSTATUS_MPP_SHIFT
    }

    pub fn set_mpp(&mut self, mode: u32)
        ensures
            final(self)@ == old(self)@.update(
                MSTATUS as int,
                with_mpp(old(self)@[MSTATUS as int], mode),
            ),
    {
        let mut status = self.read(MSTATUS);
        status = status & !MSTATUS_MPP_MASK;
        status = status | ((mode << MSTATUS_MPP_SHIFT) & MSTATUS_MPP_MASK);
        self.write(MSTATUS, status);
    }
}

/// The architectural state of the hart, as a mathematical value.
pub struct CpuState {
    pub regs: Seq<u32>,
    pub pc: u32,
    pub csrs: Seq<u32>,
    pub mode: PrivilegeMode,
}

impl CpuState {
    pub open spec fn wf(self) -> bool {
        self.regs.len() == 32 && self.csrs.len() == 4096
    }

    pub open spec fn status(self) -> u32 {
        self.csrs[MSTATUS as int]
    }
}

/// The state after entering a trap with the given cause, saving `epc`: MEPC and
/// MCAUSE are written, MPP takes the current mode, MPIE the current MIE, MIE is
/// cleared, the hart enters Machine mode and jumps to MTVEC.
#[verifier::opaque]
pub open spec fn trap(c: CpuState, cause: u32, epc: u32) -> CpuState {
    let csrs = c.csrs.update(MEPC as int, epc).update(MCAUSE as int, cause);
    let s = csrs[MSTATUS as int];
    let s2 = with_mie(with_mpie(with_mpp(s, mode_bits(c.mode)), mie_of(s)), false);
    CpuState {
        regs: c.regs,
        pc: csrs[MTVEC as int],
        csrs: csrs.update(MSTATUS as int, s2),
        mode: PrivilegeMode::Machine,
    }
}

/// The `mcause` value of an interrupt: the interrupt bit and the source's code.
pub open spec fn interrupt_cause(irq: INTERRUPT) -> u32 {
    match irq {
        INTERRUPT::TIMER => 0x8000_0007,
        INTERRUPT::UART => 0x8000_000B,
        INTERRUPT::SOFTWARE => 0x8000_0003,
        INTERRUPT::KEYBOARD => 0x8000_000C,
    }
}

/// The state after an interrupt is offered to the hart: taken (a trap saving
/// the current pc) when MIE is set, otherwise ignored.
pub open spec fn interrupt(c: CpuState, irq: INTERRUPT) -> CpuState {
    if mie_of(c.status()) {
        trap(c, interrupt_cause(irq), c.pc)
    } else {
        c
    }
}

/// The hart.
#[derive(Debug)]
pub struct CPU {
    pub registers: [u32; 32],
    pub pc: Address,
    pub csr_file: CSRFile,
    pub mode: PrivilegeMode,
}

impl View for CPU {
    type V = CpuState;

    open spec fn view(&self) -> CpuState {
        CpuState {
            regs: self.registers@,
            pc: self.pc.0,
            csrs: self.csr_file@,
            mode: self.mode,
        }
    }
}

impl CPU {
    pub proof fn lemma_wf(&self)
        ensures
            self@.wf(),
    {
        self.csr_file.lemma_len();
    }

    /// A hart in Machine mode at pc 0 with every register and CSR zero.
    pub fn new() -> (r: Self)
        ensures
            r@.regs == Seq::new(32, |i: int| 0u32),
            r@.pc == 0,
            r@.csrs == Seq::new(4096, |i: int| 0u32),
            r@.mode == PrivilegeMode::Machine,
    {
        let r = Self {
            registers: [0; 32],
            pc: Address(0x0),
            csr_file: CSRFile::new(),
            mode: PrivilegeMode::Machine,
        };
        assert(r@.regs =~= Seq::new(32, |i: int| 0u32));
        r
    }

    /// Offers an interrupt: taken only while MIE is set.
    pub fn handle_interrupt(&mut self, interrupt_type: INTERRUPT)
        ensures
            final(self)@ == interrupt(old(self)@, interrupt_type),
    {
        if !self.csr_file.mie_enabled() {
            return ;
        }
        let cause = match interrupt_type {
            INTERRUPT::TIMER => 0x8000_0007,
            INTERRUPT::UART => 0x8000_000B,
            INTERRUPT::SOFTWARE => 0x8000_0003,
            INTERRUPT::KEYBOARD => 0x8000_000C,
        };
        self.enter_trap(cause, self.pc.0);
    }

    /// Traps on a synchronous exception raised by the instruction just fetched:
    /// the saved pc is that of the faulting instruction, four bytes back.
    pub fn handle_exception(&mut self, cause: u32)
        ensures
            final(self)@ == trap(old(self)@, cause, wrap_sub(old(self)@.pc, 4)),
    {
        let faulting_pc = self.pc.0.wrapping_sub(4);
        self.enter_trap(cause, faulting_pc);
    }

    pub(crate) fn enter_trap(&mut self, cause: u32, epc: u32)
        ensures
            final(self)@ == trap(old(self)@, cause, epc),
    {
        proof {
            self.csr_file.lemma_len();
            reveal(trap);
        }
        self.csr_file.write(MEPC, epc);
        self.csr_file.write(MCAUSE, cause);
        let ghost s = self.csr_file@[MSTATUS as int];
        let current_mode = self.mode.bits();
        self.csr_file.set_mpp(current_mode);
        proof {
            lemma_status_fields(s, current_mode, false);
        }
        let current_mie = self.csr_file.mie_enabled();
        self.csr_file.set_mpie(current_mie);
        self.csr_file.set_mie(false);
        self.mode = PrivilegeMode::Machine;
        self.pc = Address(self.csr_file.read(MTVEC));
        assert(self.csr_file@ =~= trap(old(self)@, cause, epc).csrs);
    }
}

} // verus!
