//! Instruction execution. The pc has already moved past the instruction, so
//! "the instruction's address" is pc - 4.
use vstd::prelude::*;
use super::alu::{
    div_s, div_u, exec_div, exec_divu, exec_imm_u32, exec_mul, exec_mulh, exec_mulhsu,
    exec_mulhu, exec_rem, exec_remu, exec_sll, exec_slt, exec_sra, exec_srl, imm_u32, mul_lo,
    mulh, mulhsu, mulhu, rem_s, rem_u, sll, slt, sltu, sra, srl, to_signed,
};
use super::cpu::{
    CPU, CpuState, EXC_ECALL_M, EXC_ECALL_S, EXC_ECALL_U, EXC_ILLEGAL_INSTRUCTION, MEPC,
    MSTATUS, SATP, mie_of, mpie_of, mpp_of, trap, with_mie, with_mpie, with_mpp,
};
use super::types::{
    Address, Immediate, INSTRUCTION, MachineFault, PrivilegeMode, RegisterIndex, mode_of_bits,
    wrap_add, wrap_sub,
};
use crate::bits::lemma_status_fields;
use crate::bus::{Bus, Region, bus_read16, bus_read32, bus_read8, bus_write16, bus_write32,
    bus_write8, first_fault};
use crate::mmu::{AccessType, MMU, translate_spec};

verus! {

/// The machine after an instruction: the hart, the bus, and whether the
/// machine could go on.
pub struct Outcome {
    pub cpu: CpuState,
    pub bus: Seq<Region>,
    pub result: Result<(), MachineFault>,
}

/// The value of register `r`.
pub open spec fn x(c: CpuState, r: RegisterIndex) -> u32 {
    c.regs[r.0 as int]
}

pub open spec fn with_reg(c: CpuState, rd: RegisterIndex, v: u32) -> CpuState {
    CpuState { regs: c.regs.update(rd.0 as int, v), ..c }
}

pub open spec fn with_pc(c: CpuState, pc: u32) -> CpuState {
    CpuState { pc, ..c }
}

/// x0 reads as zero after every instruction.
pub open spec fn finish(c: CpuState) -> CpuState {
    CpuState { regs: c.regs.update(0, 0), ..c }
}

/// The instruction completed (possibly by trapping) with the hart in state `c`.
pub open spec fn done(c: CpuState, rs: Seq<Region>) -> Outcome {
    Outcome { cpu: finish(c), bus: rs, result: Ok(()) }
}

/// The machine cannot go on.
pub open spec fn stopped(c: CpuState, rs: Seq<Region>, f: MachineFault) -> Outcome {
    Outcome { cpu: c, bus: rs, result: Err(f) }
}

/// A synchronous exception raised by the instruction at pc - 4.
pub open spec fn except(c: CpuState, cause: u32) -> CpuState {
    trap(c, cause, wrap_sub(c.pc, 4))
}

/// Writes `v` to `rd`.
pub open spec fn write_rd(c: CpuState, rs: Seq<Region>, rd: RegisterIndex, v: u32) -> Outcome {
    done(with_reg(c, rd, v), rs)
}

/// Access width of a load or store.
#[derive(Debug, Clone, Copy, PartialEq, Eq, Structural)]
pub enum Width {
    Byte,
    Half,
    Word,
}

pub open spec fn width_bytes(w: Width) -> u32 {
    match w {
        Width::Byte => 1,
        Width::Half => 2,
        Width::Word => 4,
    }
}

/// Sign extension of a byte to a word.
pub open spec fn sext8(b: u8) -> u32 {
    if b >= 0x80 {
        (b as int + 0xFFFF_FF00) as u32
    } else {
        b as u32
    }
}

/// Sign extension of a halfword to a word.
pub open spec fn sext16(h: u16) -> u32 {
    if h >= 0x8000 {
        (h as int + 0xFFFF_0000) as u32
    } else {
        h as u32
    }
}

/// The bus after reading `width` bytes at physical address `pa`, and the word
/// loaded (sign- or zero-extended).
pub open spec fn load_value(rs: Seq<Region>, pa: u32, width: Width, signed: bool) -> (
    Seq<Region>,
    u32,
) {
    match width {
        Width::Byte => {
            let (rs1, b) = bus_read8(rs, pa);
            (rs1, if signed { sext8(b) } else { b as u32 })
        },
        Width::Half => {
            let (rs1, h) = bus_read16(rs, pa);
            (rs1, if signed { sext16(h) } else { h as u32 })
        },
        Width::Word => bus_read32(rs, pa),
    }
}

/// The bus after storing the low `width` bytes of `v` at physical address `pa`.
pub open spec fn store_value(rs: Seq<Region>, pa: u32, width: Width, v: u32) -> Seq<Region> {
    match width {
        Width::Byte => bus_write8(rs, pa, (v % 0x100) as u8),
        Width::Half => bus_write16(rs, pa, (v % 0x1_0000) as u16),
        Width::Word => bus_write32(rs, pa, v),
    }
}

/// A load: the address `x(base) + off` is translated; a page fault traps; a
/// bus access that is undefined stops the machine; otherwise `rd` receives
/// the value.
#[verifier::opaque]
pub open spec fn load(
    c: CpuState,
    rs: Seq<Region>,
    rd: RegisterIndex,
    base: RegisterIndex,
    off: Immediate,
    width: Width,
    signed: bool,
) -> Outcome {
    let vaddr = wrap_add(x(c, base), imm_u32(off));
    let (rs1, t) = translate_spec(vaddr, AccessType::Load, c.csrs[SATP as int], c.mode, rs);
    match t {
        Err(f) => stopped(c, rs1, f),
        Ok(Err(cause)) => done(except(c, cause), rs1),
        Ok(Ok(pa)) => match first_fault(rs1, pa, 0, width_bytes(width)) {
            Some(f) => stopped(c, rs1, f),
            None => {
                let (rs2, v) = load_value(rs1, pa, width, signed);
                write_rd(c, rs2, rd, v)
            },
        },
    }
}

/// A store of the low `width` bytes of `x(src)` to `x(base) + off`, translated
/// like a load but for a store access.
#[verifier::opaque]
pub open spec fn store(
    c: CpuState,
    rs: Seq<Region>,
    base: RegisterIndex,
    src: RegisterIndex,
    off: Immediate,
    width: Width,
) -> Outcome {
    let vaddr = wrap_add(x(c, base), imm_u32(off));
    let (rs1, t) = translate_spec(vaddr, AccessType::Store, c.csrs[SATP as int], c.mode, rs);
    match t {
        Err(f) => stopped(c, rs1, f),
        Ok(Err(cause)) => done(except(c, cause), rs1),
        Ok(Ok(pa)) => match first_fault(rs1, pa, 0, width_bytes(width)) {
            Some(f) => stopped(c, rs1, f),
            None => done(c, store_value(rs1, pa, width, x(c, src))),
        },
    }
}

/// The environment-call cause for the current privilege mode.
pub open spec fn ecall_cause(m: PrivilegeMode) -> u32 {
    match m {
        PrivilegeMode::User => EXC_ECALL_U,
        PrivilegeMode::Supervisor => EXC_ECALL_S,
        PrivilegeMode::Machine => EXC_ECALL_M,
    }
}

/// Return from a machine trap: pc from MEPC, privilege mode from MPP, MIE
/// from MPIE; MPIE becomes 1 and MPP User.
#[verifier::opaque]
pub open spec fn mret(c: CpuState) -> CpuState {
    let s = c.status();
    CpuState {
        regs: c.regs,
        pc: c.csrs[MEPC as int],
        csrs: c.csrs.update(MSTATUS as int, with_mpp(with_mpie(with_mie(s, mpie_of(s)), true), 0)),
        mode: mode_of_bits(mpp_of(s)),
    }
}

/// A CSR instruction writing `v`: in Machine mode the CSR takes `v` and `rd`
/// the CSR's old value; in any other mode it is an illegal instruction.
pub open spec fn csr_next(c: CpuState, rd: RegisterIndex, csr: u16, v: u32) -> CpuState {
    if c.mode != PrivilegeMode::Machine {
        except(c, EXC_ILLEGAL_INSTRUCTION)
    } else {
        with_reg(CpuState { csrs: c.csrs.update(csr as int, v), ..c }, rd, c.csrs[csr as int])
    }
}

/// Every operand of an instruction names a register or CSR that exists.
pub open spec fn operands_valid(inst: INSTRUCTION) -> bool {
    &&& crate::cpu::decode::regs_in_range(inst)
    &&& match inst {
        INSTRUCTION::CSRRW(_, _, c) | INSTRUCTION::CSRRS(_, _, c) | INSTRUCTION::CSRRC(_, _, c)
        | INSTRUCTION::CSRRWI(_, _, c) | INSTRUCTION::CSRRSI(_, _, c) | INSTRUCTION::CSRRCI(
            _,
            _,
            c,
        ) => c < 4096,
        _ => true,
    }
}

/// Instructions whose whole effect is to write a value computed from
/// registers, immediates and the pc into the destination register.
pub open spec fn writes_value(inst: INSTRUCTION) -> bool {
    match inst {
        INSTRUCTION::ADDI(..) | INSTRUCTION::XORI(..) | INSTRUCTION::ANDI(..) | INSTRUCTION::ORI(..)
        | INSTRUCTION::ADD(..) | INSTRUCTION::SUB(..) | INSTRUCTION::AND(..) | INSTRUCTION::OR(..)
        | INSTRUCTION::XOR(..) | INSTRUCTION::SLLI(..) | INSTRUCTION::SRLI(..) | INSTRUCTION::SRAI(..)
        | INSTRUCTION::SLL(..) | INSTRUCTION::SRL(..) | INSTRUCTION::SRA(..) | INSTRUCTION::SLT(..)
        | INSTRUCTION::SLTU(..) | INSTRUCTION::SLTI(..) | INSTRUCTION::SLTIU(..) | INSTRUCTION::LUI(..)
        | INSTRUCTION::AUIPC(..) | INSTRUCTION::MUL(..) | INSTRUCTION::MULH(..) | INSTRUCTION::MULHSU(..)
        | INSTRUCTION::MULHU(..) | INSTRUCTION::DIV(..) | INSTRUCTION::DIVU(..) | INSTRUCTION::REM(..)
        | INSTRUCTION::REMU(..) => true,
        _ => false,
    }
}

/// The destination register of an instruction that writes one.
pub open spec fn dest(inst: INSTRUCTION) -> RegisterIndex {
    match inst {
        INSTRUCTION::ADDI(rd, _, _) | INSTRUCTION::XORI(rd, _, _) | INSTRUCTION::ANDI(rd, _, _)
        | INSTRUCTION::ORI(rd, _, _) | INSTRUCTION::SLTI(rd, _, _) | INSTRUCTION::SLTIU(rd, _, _)
        | INSTRUCTION::LB(rd, _, _) | INSTRUCTION::LH(rd, _, _) | INSTRUCTION::LW(rd, _, _)
        | INSTRUCTION::LBU(rd, _, _) | INSTRUCTION::LHU(rd, _, _) | INSTRUCTION::JALR(rd, _, _)
        | INSTRUCTION::CSRRW(rd, _, _) | INSTRUCTION::CSRRS(rd, _, _) | INSTRUCTION::CSRRC(rd, _, _)
        | INSTRUCTION::ADD(rd, _, _) | INSTRUCTION::SUB(rd, _, _) | INSTRUCTION::AND(rd, _, _)
        | INSTRUCTION::OR(rd, _, _) | INSTRUCTION::XOR(rd, _, _) | INSTRUCTION::SLLI(rd, _, _)
        | INSTRUCTION::SRLI(rd, _, _) | INSTRUCTION::SRAI(rd, _, _) | INSTRUCTION::SLL(rd, _, _)
        | INSTRUCTION::SRL(rd, _, _) | INSTRUCTION::SRA(rd, _, _) | INSTRUCTION::SLT(rd, _, _)
        | INSTRUCTION::SLTU(rd, _, _) | INSTRUCTION::MUL(rd, _, _) | INSTRUCTION::MULH(rd, _, _)
        | INSTRUCTION::MULHSU(rd, _, _) | INSTRUCTION::MULHU(rd, _, _) | INSTRUCTION::DIV(rd, _, _)
        | INSTRUCTION::DIVU(rd, _, _) | INSTRUCTION::REM(rd, _, _) | INSTRUCTION::REMU(rd, _, _)
        | INSTRUCTION::CSRRWI(rd, _, _) | INSTRUCTION::CSRRSI(rd, _, _) | INSTRUCTION::CSRRCI(
            rd,
            _,
            _,
        ) | INSTRUCTION::JAL(rd, _) | INSTRUCTION::LUI(rd, _) | INSTRUCTION::AUIPC(rd, _) => rd,
        INSTRUCTION::SB(..) | INSTRUCTION::SH(..) | INSTRUCTION::SW(..) | INSTRUCTION::BEQ(..)
        | INSTRUCTION::BNE(..) | INSTRUCTION::BLT(..) | INSTRUCTION::BGE(..) | INSTRUCTION::BLTU(..)
        | INSTRUCTION::BGEU(..) | INSTRUCTION::ECALL | INSTRUCTION::MRET => RegisterIndex(0),
    }
}

/// The value an arithmetic, logic, M-extension, LUI or AUIPC instruction
/// writes to its destination.
pub open spec fn value_of(c: CpuState, inst: INSTRUCTION) -> u32 {
    match inst {
        INSTRUCTION::ADDI(_, a, i) => wrap_add(x(c, a), imm_u32(i)),
        INSTRUCTION::XORI(_, a, i) => x(c, a) ^ imm_u32(i),
        INSTRUCTION::ANDI(_, a, i) => x(c, a) & imm_u32(i),
        INSTRUCTION::ORI(_, a, i) => x(c, a) | imm_u32(i),
        INSTRUCTION::ADD(_, a, b) => wrap_add(x(c, a), x(c, b)),
        INSTRUCTION::SUB(_, a, b) => wrap_sub(x(c, a), x(c, b)),
        INSTRUCTION::AND(_, a, b) => x(c, a) & x(c, b),
        INSTRUCTION::OR(_, a, b) => x(c, a) | x(c, b),
        INSTRUCTION::XOR(_, a, b) => x(c, a) ^ x(c, b),
        INSTRUCTION::SLLI(_, a, sh) => sll(x(c, a), sh.0 as u32),
        INSTRUCTION::SRLI(_, a, sh) => srl(x(c, a), sh.0 as u32),
        INSTRUCTION::SRAI(_, a, sh) => sra(x(c, a), sh.0 as u32),
        INSTRUCTION::SLL(_, a, b) => sll(x(c, a), x(c, b)),
        INSTRUCTION::SRL(_, a, b) => srl(x(c, a), x(c, b)),
        INSTRUCTION::SRA(_, a, b) => sra(x(c, a), x(c, b)),
        INSTRUCTION::SLT(_, a, b) => slt(x(c, a), x(c, b)),
        INSTRUCTION::SLTU(_, a, b) => sltu(x(c, a), x(c, b)),
        INSTRUCTION::SLTI(_, a, i) => slt(x(c, a), imm_u32(i)),
        INSTRUCTION::SLTIU(_, a, i) => sltu(x(c, a), imm_u32(i)),
        INSTRUCTION::LUI(_, u) => u,
        INSTRUCTION::AUIPC(_, u) => wrap_add(wrap_sub(c.pc, 4), u),
        INSTRUCTION::MUL(_, a, b) => mul_lo(x(c, a), x(c, b)),
        INSTRUCTION::MULH(_, a, b) => mulh(x(c, a), x(c, b)),
        INSTRUCTION::MULHSU(_, a, b) => mulhsu(x(c, a), x(c, b)),
        INSTRUCTION::MULHU(_, a, b) => mulhu(x(c, a), x(c, b)),
        INSTRUCTION::DIV(_, a, b) => div_s(x(c, a), x(c, b)),
        INSTRUCTION::DIVU(_, a, b) => div_u(x(c, a), x(c, b)),
        INSTRUCTION::REM(_, a, b) => rem_s(x(c, a), x(c, b)),
        INSTRUCTION::REMU(_, a, b) => rem_u(x(c, a), x(c, b)),
        _ => 0,
    }
}

/// Loads and stores.
pub open spec fn is_memory(inst: INSTRUCTION) -> bool {
    match inst {
        INSTRUCTION::LB(..) | INSTRUCTION::LH(..) | INSTRUCTION::LW(..) | INSTRUCTION::LBU(..)
        | INSTRUCTION::LHU(..) | INSTRUCTION::SB(..) | INSTRUCTION::SH(..) | INSTRUCTION::SW(..) => true,
        _ => false,
    }
}

/// Branches and jumps.
pub open spec fn is_control(inst: INSTRUCTION) -> bool {
    match inst {
        INSTRUCTION::BEQ(..) | INSTRUCTION::BNE(..) | INSTRUCTION::BLT(..) | INSTRUCTION::BGE(..)
        | INSTRUCTION::BLTU(..) | INSTRUCTION::BGEU(..) | INSTRUCTION::JAL(..) | INSTRUCTION::JALR(
            ..,
        ) => true,
        _ => false,
    }
}

/// Traps, trap return and CSR accesses.
pub open spec fn is_system(inst: INSTRUCTION) -> bool {
    match inst {
        INSTRUCTION::ECALL | INSTRUCTION::MRET | INSTRUCTION::CSRRW(..) | INSTRUCTION::CSRRS(..)
        | INSTRUCTION::CSRRC(..) | INSTRUCTION::CSRRWI(..) | INSTRUCTION::CSRRSI(..)
        | INSTRUCTION::CSRRCI(..) => true,
        _ => false,
    }
}

/// Every instruction falls in one of the four groups.
pub proof fn lemma_classify(inst: INSTRUCTION)
    ensures
        writes_value(inst) || is_memory(inst) || is_control(inst) || is_system(inst),
{
}

/// The hart after a branch or jump.
pub open spec fn control_next(c: CpuState, inst: INSTRUCTION) -> CpuState {
    match inst {
        INSTRUCTION::BEQ(a, b, i) => branch_next(c, x(c, a) == x(c, b), i),
        INSTRUCTION::BNE(a, b, i) => branch_next(c, x(c, a) != x(c, b), i),
        INSTRUCTION::BLT(a, b, i) => branch_next(c, to_signed(x(c, a)) < to_signed(x(c, b)), i),
        INSTRUCTION::BGE(a, b, i) => branch_next(c, to_signed(x(c, a)) >= to_signed(x(c, b)), i),
        INSTRUCTION::BLTU(a, b, i) => branch_next(c, x(c, a) < x(c, b), i),
        INSTRUCTION::BGEU(a, b, i) => branch_next(c, x(c, a) >= x(c, b), i),
        INSTRUCTION::JAL(rd, off) => with_pc(with_reg(c, rd, c.pc), wrap_add(wrap_sub(c.pc, 4), off)),
        INSTRUCTION::JALR(rd, a, i) => with_reg(
            with_pc(c, wrap_add(x(c, a), imm_u32(i)) & 0xFFFF_FFFE),
            rd,
            c.pc,
        ),
        _ => c,
    }
}

/// A taken branch goes to the instruction's address plus the offset; an
/// untaken one goes on.
pub open spec fn branch_next(c: CpuState, taken: bool, off: Immediate) -> CpuState {
    if taken {
        with_pc(c, wrap_add(wrap_sub(c.pc, 4), imm_u32(off)))
    } else {
        c
    }
}

/// The effect of executing `inst` on hart `c` and bus `rs`.
pub open spec fn execute_spec(c: CpuState, rs: Seq<Region>, inst: INSTRUCTION) -> Outcome {
    if writes_value(inst) {
        write_rd(c, rs, dest(inst), value_of(c, inst))
    } else {
        match inst {
            INSTRUCTION::LB(rd, a, i) => load(c, rs, rd, a, i, Width::Byte, true),
            INSTRUCTION::LH(rd, a, i) => load(c, rs, rd, a, i, Width::Half, true),
            INSTRUCTION::LW(rd, a, i) => load(c, rs, rd, a, i, Width::Word, false),
            INSTRUCTION::LBU(rd, a, i) => load(c, rs, rd, a, i, Width::Byte, false),
            INSTRUCTION::LHU(rd, a, i) => load(c, rs, rd, a, i, Width::Half, false),
            INSTRUCTION::SB(a, b, i) => store(c, rs, a, b, i, Width::Byte),
            INSTRUCTION::SH(a, b, i) => store(c, rs, a, b, i, Width::Half),
            INSTRUCTION::SW(a, b, i) => store(c, rs, a, b, i, Width::Word),
            INSTRUCTION::BEQ(..) | INSTRUCTION::BNE(..) | INSTRUCTION::BLT(..)
            | INSTRUCTION::BGE(..) | INSTRUCTION::BLTU(..) | INSTRUCTION::BGEU(..)
            | INSTRUCTION::JAL(..) | INSTRUCTION::JALR(..) => done(control_next(c, inst), rs),
            INSTRUCTION::ECALL => done(except(c, ecall_cause(c.mode)), rs),
            INSTRUCTION::MRET => if c.mode != PrivilegeMode::Machine {
                done(except(c, EXC_ILLEGAL_INSTRUCTION), rs)
            } else {
                done(mret(c), rs)
            },
            INSTRUCTION::CSRRW(rd, a, csr) => done(csr_next(c, rd, csr, x(c, a)), rs),
            INSTRUCTION::CSRRS(rd, a, csr) => done(
                csr_next(c, rd, csr, c.csrs[csr as int] | x(c, a)),
                rs,
            ),
            INSTRUCTION::CSRRC(rd, a, csr) => done(
                csr_next(c, rd, csr, c.csrs[csr as int] & !x(c, a)),
                rs,
            ),
            INSTRUCTION::CSRRWI(rd, z, csr) => done(csr_next(c, rd, csr, z as u32), rs),
            INSTRUCTION::CSRRSI(rd, z, csr) => done(
                csr_next(c, rd, csr, c.csrs[csr as int] | z as u32),
                rs,
            ),
            INSTRUCTION::CSRRCI(rd, z, csr) => done(
                csr_next(c, rd, csr, c.csrs[csr as int] & !(z as u32)),
                rs,
            ),
            _ => done(c, rs),
        }
    }
}

impl CPU {
    /// Executes a decoded instruction. `Err` where an access through the bus is
    /// undefined (the machine cannot go on); otherwise the instruction has
    /// completed or trapped.
    pub fn execute(&mut self, inst: INSTRUCTION, bus: &mut Bus) -> (r: Result<(), MachineFault>)
        requires
            operands_valid(inst),
        ensures
            (Outcome { cpu: final(self)@, bus: final(bus)@, result: r }) == execute_spec(
                old(self)@,
                old(bus)@,
                inst,
            ),
    {
        proof {
            self.lemma_wf();
        }
        if Self::is_value_op(&inst) {
            let v = self.alu_value(&inst);
            let rd = Self::destination(&inst);
            self.set_reg(&rd, v);
            self.registers[0] = 0;
            return Ok(());
        }
        if Self::is_memory_op(&inst) {
            return self.exec_memory(inst, bus);
        }
        if Self::is_control_op(&inst) {
            self.exec_control(&inst);
        } else {
            proof {
                lemma_classify(inst);
            }
            self.exec_system(&inst, Ghost(bus@));
        }
        self.registers[0] = 0;
        Ok(())
    }

    fn is_memory_op(inst: &INSTRUCTION) -> (r: bool)
        ensures
            r == is_memory(*inst),
    {
        match inst {
            INSTRUCTION::LB(..) | INSTRUCTION::LH(..) | INSTRUCTION::LW(..) | INSTRUCTION::LBU(..)
            | INSTRUCTION::LHU(..) | INSTRUCTION::SB(..) | INSTRUCTION::SH(..)
            | INSTRUCTION::SW(..) => true,
            _ => false,
        }
    }

    fn is_control_op(inst: &INSTRUCTION) -> (r: bool)
        ensures
            r == is_control(*inst),
    {
        match inst {
            INSTRUCTION::BEQ(..) | INSTRUCTION::BNE(..) | INSTRUCTION::BLT(..)
            | INSTRUCTION::BGE(..) | INSTRUCTION::BLTU(..) | INSTRUCTION::BGEU(..)
            | INSTRUCTION::JAL(..) | INSTRUCTION::JALR(..) => true,
            _ => false,
        }
    }

    fn exec_memory(&mut self, inst: INSTRUCTION, bus: &mut Bus) -> (r: Result<(), MachineFault>)
        requires
            is_memory(inst),
            operands_valid(inst),
        ensures
            (Outcome { cpu: final(self)@, bus: final(bus)@, result: r }) == execute_spec(
                old(self)@,
                old(bus)@,
                inst,
            ),
    {
        match inst {
            INSTRUCTION::LB(rd, rs1, imm) => {
                return self.exec_load(&rd, &rs1, &imm, Width::Byte, true, bus);
            },
            INSTRUCTION::LH(rd, rs1, imm) => {
                return self.exec_load(&rd, &rs1, &imm, Width::Half, true, bus);
            },
            INSTRUCTION::LW(rd, rs1, imm) => {
                return self.exec_load(&rd, &rs1, &imm, Width::Word, false, bus);
            },
            INSTRUCTION::LBU(rd, rs1, imm) => {
                return self.exec_load(&rd, &rs1, &imm, Width::Byte, false, bus);
            },
            INSTRUCTION::LHU(rd, rs1, imm) => {
                return self.exec_load(&rd, &rs1, &imm, Width::Half, false, bus);
            },
            INSTRUCTION::SB(rs1, rs2, imm) => {
                return self.exec_store(&rs1, &rs2, &imm, Width::Byte, bus);
            },
            INSTRUCTION::SH(rs1, rs2, imm) => {
                return self.exec_store(&rs1, &rs2, &imm, Width::Half, bus);
            },
            INSTRUCTION::SW(rs1, rs2, imm) => {
                return self.exec_store(&rs1, &rs2, &imm, Width::Word, bus);
            },
            _ => Ok(()),
        }
    }

    fn exec_control(&mut self, inst: &INSTRUCTION)
        requires
            is_control(*inst),
            operands_valid(*inst),
        ensures
            final(self)@ == control_next(old(self)@, *inst),
    {
        match inst {
            INSTRUCTION::JAL(rd, imm) => {
                let return_addr = self.pc.0;
                self.set_reg(rd, return_addr);
                let current_pc = self.pc.0.wrapping_sub(4);
                self.pc = Address(current_pc.wrapping_add(*imm));
            },
            INSTRUCTION::JALR(rd, rs1, imm) => {
                let return_addr = self.pc.0;
                let target = self.reg(rs1).wrapping_add(exec_imm_u32(imm)) & 0xFFFF_FFFE;
                self.pc = Address(target);
                self.set_reg(rd, return_addr);
            },
            INSTRUCTION::BEQ(rs1, rs2, imm) => {
                let taken = self.reg(rs1) == self.reg(rs2);
                self.exec_branch(taken, imm);
            },
            INSTRUCTION::BNE(rs1, rs2, imm) => {
                let taken = self.reg(rs1) != self.reg(rs2);
                self.exec_branch(taken, imm);
            },
            INSTRUCTION::BLT(rs1, rs2, imm) => {
                let taken = exec_slt(self.reg(rs1), self.reg(rs2)) == 1;
                self.exec_branch(taken, imm);
            },
            INSTRUCTION::BGE(rs1, rs2, imm) => {
                let taken = exec_slt(self.reg(rs1), self.reg(rs2)) == 0;
                self.exec_branch(taken, imm);
            },
            INSTRUCTION::BLTU(rs1, rs2, imm) => {
                let taken = self.reg(rs1) < self.reg(rs2);
                self.exec_branch(taken, imm);
            },
            INSTRUCTION::BGEU(rs1, rs2, imm) => {
                let taken = self.reg(rs1) >= self.reg(rs2);
                self.exec_branch(taken, imm);
            },
            _ => {},
        }
    }

    fn exec_system(&mut self, inst: &INSTRUCTION, Ghost(rs): Ghost<Seq<Region>>)
        requires
            is_system(*inst),
            operands_valid(*inst),
        ensures
            done(final(self)@, rs) == execute_spec(old(self)@, rs, *inst),
    {
        proof {
            self.lemma_wf();
        }
        match inst {
            INSTRUCTION::ECALL => {
                let cause = match self.mode {
                    PrivilegeMode::User => EXC_ECALL_U,
                    PrivilegeMode::Supervisor => EXC_ECALL_S,
                    PrivilegeMode::Machine => EXC_ECALL_M,
                };
                self.handle_exception(cause);
            },
            INSTRUCTION::MRET => {
                if self.mode != PrivilegeMode::Machine {
                    self.handle_exception(EXC_ILLEGAL_INSTRUCTION);
                } else {
                    self.exec_mret();
                }
            },
            INSTRUCTION::CSRRW(rd, rs1, csr_addr) => {
                let v = self.reg(rs1);
                self.exec_csr(rd, *csr_addr, v);
            },
            INSTRUCTION::CSRRS(rd, rs1, csr_addr) => {
                if self.mode == PrivilegeMode::Machine {
                    let v = self.csr_file.read(*csr_addr as usize) | self.reg(rs1);
                    self.exec_csr(rd, *csr_addr, v);
                } else {
                    self.handle_exception(EXC_ILLEGAL_INSTRUCTION);
                }
            },
            INSTRUCTION::CSRRC(rd, rs1, csr_addr) => {
                if self.mode == PrivilegeMode::Machine {
                    let v = self.csr_file.read(*csr_addr as usize) & !self.reg(rs1);
                    self.exec_csr(rd, *csr_addr, v);
                } else {
                    self.handle_exception(EXC_ILLEGAL_INSTRUCTION);
                }
            },
            INSTRUCTION::CSRRWI(rd, zimm, csr_addr) => {
                self.exec_csr(rd, *csr_addr, *zimm as u32);
            },
            INSTRUCTION::CSRRSI(rd, zimm, csr_addr) => {
                if self.mode == PrivilegeMode::Machine {
                    let v = self.csr_file.read(*csr_addr as usize) | (*zimm as u32);
                    self.exec_csr(rd, *csr_addr, v);
                } else {
                    self.handle_exception(EXC_ILLEGAL_INSTRUCTION);
                }
            },
            INSTRUCTION::CSRRCI(rd, zimm, csr_addr) => {
                if self.mode == PrivilegeMode::Machine {
                    let v = self.csr_file.read(*csr_addr as usize) & !(*zimm as u32);
                    self.exec_csr(rd, *csr_addr, v);
                } else {
                    self.handle_exception(EXC_ILLEGAL_INSTRUCTION);
                }
            },

            _ => {},
        }
    }

    /// The value a register-writing arithmetic instruction produces.
    fn alu_value(&self, inst: &INSTRUCTION) -> (r: u32)
        requires
            writes_value(*inst),
            operands_valid(*inst),
        ensures
            r == value_of(self@, *inst),
    {
        match inst {
            INSTRUCTION::ADDI(_, rs1, imm) => self.reg(rs1).wrapping_add(exec_imm_u32(imm)),
            INSTRUCTION::XORI(_, rs1, imm) => self.reg(rs1) ^ exec_imm_u32(imm),
            INSTRUCTION::ANDI(_, rs1, imm) => self.reg(rs1) & exec_imm_u32(imm),
            INSTRUCTION::ORI(_, rs1, imm) => self.reg(rs1) | exec_imm_u32(imm),
            INSTRUCTION::ADD(_, rs1, rs2) => self.reg(rs1).wrapping_add(self.reg(rs2)),
            INSTRUCTION::SUB(_, rs1, rs2) => self.reg(rs1).wrapping_sub(self.reg(rs2)),
            INSTRUCTION::AND(_, rs1, rs2) => self.reg(rs1) & self.reg(rs2),
            INSTRUCTION::OR(_, rs1, rs2) => self.reg(rs1) | self.reg(rs2),
            INSTRUCTION::XOR(_, rs1, rs2) => self.reg(rs1) ^ self.reg(rs2),
            INSTRUCTION::SLLI(_, rs1, shamt) => exec_sll(self.reg(rs1), shamt.0 as u32),
            INSTRUCTION::SRLI(_, rs1, shamt) => exec_srl(self.reg(rs1), shamt.0 as u32),
            INSTRUCTION::SRAI(_, rs1, shamt) => exec_sra(self.reg(rs1), shamt.0 as u32),
            INSTRUCTION::SLL(_, rs1, rs2) => exec_sll(self.reg(rs1), self.reg(rs2)),
            INSTRUCTION::SRL(_, rs1, rs2) => exec_srl(self.reg(rs1), self.reg(rs2)),
            INSTRUCTION::SRA(_, rs1, rs2) => exec_sra(self.reg(rs1), self.reg(rs2)),
            INSTRUCTION::SLT(_, rs1, rs2) => exec_slt(self.reg(rs1), self.reg(rs2)),
            INSTRUCTION::SLTU(_, rs1, rs2) => if self.reg(rs1) < self.reg(rs2) {
                        1
                    } else {
                        0
                    },
            INSTRUCTION::SLTI(_, rs1, imm) => exec_slt(self.reg(rs1), exec_imm_u32(imm)),
            INSTRUCTION::SLTIU(_, rs1, imm) => if self.reg(rs1) < exec_imm_u32(imm) {
                        1
                    } else {
                        0
                    },
            INSTRUCTION::LUI(_, imm) => *imm,
            INSTRUCTION::AUIPC(_, imm) => self.pc.0.wrapping_sub(4).wrapping_add(*imm),
            INSTRUCTION::MUL(_, rs1, rs2) => exec_mul(self.reg(rs1), self.reg(rs2)),
            INSTRUCTION::MULH(_, rs1, rs2) => exec_mulh(self.reg(rs1), self.reg(rs2)),
            INSTRUCTION::MULHSU(_, rs1, rs2) => exec_mulhsu(self.reg(rs1), self.reg(rs2)),
            INSTRUCTION::MULHU(_, rs1, rs2) => exec_mulhu(self.reg(rs1), self.reg(rs2)),
            INSTRUCTION::DIV(_, rs1, rs2) => exec_div(self.reg(rs1), self.reg(rs2)),
            INSTRUCTION::DIVU(_, rs1, rs2) => exec_divu(self.reg(rs1), self.reg(rs2)),
            INSTRUCTION::REM(_, rs1, rs2) => exec_rem(self.reg(rs1), self.reg(rs2)),
            INSTRUCTION::REMU(_, rs1, rs2) => exec_remu(self.reg(rs1), self.reg(rs2)),
            _ => 0,
        }
    }

    /// The destination register of an instruction that writes one.
    fn destination(inst: &INSTRUCTION) -> (r: RegisterIndex)
        ensures
            r == dest(*inst),
    {
        match inst {
            INSTRUCTION::ADDI(rd, _, _) | INSTRUCTION::XORI(rd, _, _) | INSTRUCTION::ANDI(rd, _, _)
            | INSTRUCTION::ORI(rd, _, _) | INSTRUCTION::SLTI(rd, _, _) | INSTRUCTION::SLTIU(rd, _, _)
            | INSTRUCTION::LB(rd, _, _) | INSTRUCTION::LH(rd, _, _) | INSTRUCTION::LW(rd, _, _)
            | INSTRUCTION::LBU(rd, _, _) | INSTRUCTION::LHU(rd, _, _) | INSTRUCTION::JALR(rd, _, _)
            | INSTRUCTION::CSRRW(rd, _, _) | INSTRUCTION::CSRRS(rd, _, _) | INSTRUCTION::CSRRC(
                rd,
                _,
                _,
            ) | INSTRUCTION::ADD(rd, _, _) | INSTRUCTION::SUB(rd, _, _) | INSTRUCTION::AND(rd, _, _)
            | INSTRUCTION::OR(rd, _, _) | INSTRUCTION::XOR(rd, _, _) | INSTRUCTION::SLLI(rd, _, _)
            | INSTRUCTION::SRLI(rd, _, _) | INSTRUCTION::SRAI(rd, _, _) | INSTRUCTION::SLL(rd, _, _)
            | INSTRUCTION::SRL(rd, _, _) | INSTRUCTION::SRA(rd, _, _) | INSTRUCTION::SLT(rd, _, _)
            | INSTRUCTION::SLTU(rd, _, _) | INSTRUCTION::MUL(rd, _, _) | INSTRUCTION::MULH(rd, _, _)
            | INSTRUCTION::MULHSU(rd, _, _) | INSTRUCTION::MULHU(rd, _, _) | INSTRUCTION::DIV(rd, _, _)
            | INSTRUCTION::DIVU(rd, _, _) | INSTRUCTION::REM(rd, _, _) | INSTRUCTION::REMU(rd, _, _)
            | INSTRUCTION::CSRRWI(rd, _, _) | INSTRUCTION::CSRRSI(rd, _, _) | INSTRUCTION::CSRRCI(
                rd,
                _,
                _,
            ) | INSTRUCTION::JAL(rd, _) | INSTRUCTION::LUI(rd, _) | INSTRUCTION::AUIPC(rd, _) => {
                RegisterIndex(rd.0)
            },
            _ => RegisterIndex(0),
        }
    }

    /// Whether the instruction only writes a computed value to a register.
    fn is_value_op(inst: &INSTRUCTION) -> (r: bool)
        ensures
            r == writes_value(*inst),
    {
        match inst {
            INSTRUCTION::ADDI(..) | INSTRUCTION::XORI(..) | INSTRUCTION::ANDI(..)
            | INSTRUCTION::ORI(..) | INSTRUCTION::ADD(..) | INSTRUCTION::SUB(..)
            | INSTRUCTION::AND(..) | INSTRUCTION::OR(..) | INSTRUCTION::XOR(..)
            | INSTRUCTION::SLLI(..) | INSTRUCTION::SRLI(..) | INSTRUCTION::SRAI(..)
            | INSTRUCTION::SLL(..) | INSTRUCTION::SRL(..) | INSTRUCTION::SRA(..)
            | INSTRUCTION::SLT(..) | INSTRUCTION::SLTU(..) | INSTRUCTION::SLTI(..)
            | INSTRUCTION::SLTIU(..) | INSTRUCTION::LUI(..) | INSTRUCTION::AUIPC(..)
            | INSTRUCTION::MUL(..) | INSTRUCTION::MULH(..) | INSTRUCTION::MULHSU(..)
            | INSTRUCTION::MULHU(..) | INSTRUCTION::DIV(..) | INSTRUCTION::DIVU(..)
            | INSTRUCTION::REM(..) | INSTRUCTION::REMU(..) => true,
            _ => false,
        }
    }

    fn reg(&self, r: &RegisterIndex) -> (v: u32)
        requires
            r.0 < 32,
        ensures
            v == x(self@, *r),
    {
        self.registers[r.0 as usize]
    }

    fn set_reg(&mut self, rd: &RegisterIndex, v: u32)
        requires
            rd.0 < 32,
        ensures
            final(self)@ == with_reg(old(self)@, *rd, v),
    {
        self.registers[rd.0 as usize] = v;
    }

    fn exec_branch(&mut self, taken: bool, off: &Immediate)
        ensures
            final(self)@ == branch_next(old(self)@, taken, *off),
    {
        if taken {
            let current_pc = self.pc.0.wrapping_sub(4);
            self.pc = Address(current_pc.wrapping_add(exec_imm_u32(off)));
        }
    }

    /// A CSR access with the new value `v`: privileged to Machine mode.
    fn exec_csr(&mut self, rd: &RegisterIndex, csr: u16, v: u32)
        requires
            rd.0 < 32,
            csr < 4096,
        ensures
            final(self)@ == csr_next(old(self)@, *rd, csr, v),
    {
        if self.mode != PrivilegeMode::Machine {
            self.handle_exception(EXC_ILLEGAL_INSTRUCTION);
            return ;
        }
        let old = self.csr_file.read(csr as usize);
        self.csr_file.write(csr as usize, v);
        self.set_reg(rd, old);
    }

    fn exec_mret(&mut self)
        ensures
            final(self)@ == mret(old(self)@),
    {
        reveal(mret);
        proof {
            self.lemma_wf();
        }
        let ghost s = old(self)@.status();
        self.pc = Address(self.csr_file.read(MEPC));
        let mpp = self.csr_file.mpp();
        let mpie = self.csr_file.mpie();
        proof {
            lemma_status_fields(s, 0, mpie);
            lemma_status_fields(with_mie(s, mpie), 0, true);
        }
        self.csr_file.set_mie(mpie);
        self.csr_file.set_mpie(true);
        self.csr_file.set_mpp(0);
        self.mode = PrivilegeMode::from_bits(mpp);
        assert(self.csr_file@ =~= mret(old(self)@).csrs);
    }

    fn exec_load(
        &mut self,
        rd: &RegisterIndex,
        base: &RegisterIndex,
        off: &Immediate,
        width: Width,
        signed: bool,
        bus: &mut Bus,
    ) -> (r: Result<(), MachineFault>)
        requires
            rd.0 < 32,
            base.0 < 32,
        ensures
            (Outcome { cpu: final(self)@, bus: final(bus)@, result: r }) == load(
                old(self)@,
                old(bus)@,
                *rd,
                *base,
                *off,
                width,
                signed,
            ),
    {
        proof {
            self.lemma_wf();
            reveal(load);
        }
        let vaddr = self.reg(base).wrapping_add(exec_imm_u32(off));
        let satp = self.csr_file.read(SATP);
        match MMU::translate(vaddr, &AccessType::Load, satp, self.mode, bus) {
            Err(f) => Err(f),
            Ok(Err(cause)) => {
                self.handle_exception(cause);
                self.registers[0] = 0;
                Ok(())
            },
            Ok(Ok(paddr)) => {
                let n = match width {
                    Width::Byte => 1,
                    Width::Half => 2,
                    Width::Word => 4,
                };
                if let Some(f) = bus.check_access(Address(paddr), n) {
                    return Err(f);
                }
                let v = match width {
                    Width::Byte => {
                        let b = bus.read8(Address(paddr));
                        if signed && b >= 0x80 {
                            b as u32 + 0xFFFF_FF00
                        } else {
                            b as u32
                        }
                    },
                    Width::Half => {
                        let h = bus.read16(Address(paddr));
                        if signed && h >= 0x8000 {
                            h as u32 + 0xFFFF_0000
                        } else {
                            h as u32
                        }
                    },
                    Width::Word => bus.read32(Address(paddr)),
                };
                self.set_reg(rd, v);
                self.registers[0] = 0;
                Ok(())
            },
        }
    }

    fn exec_store(
        &mut self,
        base: &RegisterIndex,
        src: &RegisterIndex,
        off: &Immediate,
        width: Width,
        bus: &mut Bus,
    ) -> (r: Result<(), MachineFault>)
        requires
            base.0 < 32,
            src.0 < 32,
        ensures
            (Outcome { cpu: final(self)@, bus: final(bus)@, result: r }) == store(
                old(self)@,
                old(bus)@,
                *base,
                *src,
                *off,
                width,
            ),
    {
        proof {
            self.lemma_wf();
            reveal(store);
        }
        let vaddr = self.reg(base).wrapping_add(exec_imm_u32(off));
        let satp = self.csr_file.read(SATP);
        match MMU::translate(vaddr, &AccessType::Store, satp, self.mode, bus) {
            Err(f) => Err(f),
            Ok(Err(cause)) => {
                self.handle_exception(cause);
                self.registers[0] = 0;
                Ok(())
            },
            Ok(Ok(paddr)) => {
                let n = match width {
                    Width::Byte => 1,
                    Width::Half => 2,
                    Width::Word => 4,
                };
                if let Some(f) = bus.check_access(Address(paddr), n) {
                    return Err(f);
                }
                let v = self.reg(src);
                match width {
                    Width::Byte => bus.write8(Address(paddr), (v % 0x100) as u8),
                    Width::Half => bus.write16(Address(paddr), (v % 0x1_0000) as u16),
                    Width::Word => bus.write32(Address(paddr), v),
                }
                self.registers[0] = 0;
                Ok(())
            },
        }
    }
}

} // verus!
