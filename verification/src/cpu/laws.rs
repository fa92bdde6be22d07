//! Properties of the hart that span several operations.
use vstd::prelude::*;
use super::alu::{div_s, div_u, rem_s, rem_u, to_signed};
use super::cpu::{CpuState, EXC_ILLEGAL_INSTRUCTION, MSTATUS, interrupt, mie_of, mpie_of, mpp_of, trap, with_mie, with_mpie,
    with_mpp};
use super::execute::{done, except, execute_spec, mret};
use super::fetch::step_spec;
use super::cpu::{MCAUSE, MEPC, MTVEC};
use super::execute::Outcome;
use super::types::{
    Immediate, INSTRUCTION, INTERRUPT, PrivilegeMode, RegisterIndex, lemma_mode_bits_roundtrip, mode_bits,
};
use crate::bits::lemma_status_fields;
use crate::bus::Region;

verus! {

/// Returning from a trap undoes it: MRET after taking a trap resumes at the
/// saved pc, in the privilege mode the hart had, with interrupts enabled
/// exactly when they were before; MPIE is left set and MPP User.
pub proof fn lemma_mret_undoes_trap(c: CpuState, cause: u32, epc: u32)
    requires
        c.wf(),
    ensures
        mret(trap(c, cause, epc)).pc == epc,
        mret(trap(c, cause, epc)).mode == c.mode,
        mie_of(mret(trap(c, cause, epc)).status()) == mie_of(c.status()),
        mpie_of(mret(trap(c, cause, epc)).status()),
        mpp_of(mret(trap(c, cause, epc)).status()) == 0,
        mret(trap(c, cause, epc)).regs == c.regs,
{
    reveal(trap);
    reveal(mret);
    let s = c.status();
    let b = mode_bits(c.mode);
    lemma_mode_bits_roundtrip(c.mode);
    let s1 = with_mpp(s, b);
    lemma_status_fields(s, b, false);
    let s2 = with_mpie(s1, mie_of(s));
    lemma_status_fields(s1, 0, mie_of(s));
    let s3 = with_mie(s2, false);
    lemma_status_fields(s2, 0, false);
    assert(trap(c, cause, epc).status() == s3);
    assert(b & 3 == b) by (bit_vector)
        requires
            b <= 3,
    ;
    let t = s3;
    let u1 = with_mie(t, mpie_of(t));
    lemma_status_fields(t, 0, mpie_of(t));
    let u2 = with_mpie(u1, true);
    lemma_status_fields(u1, 0, true);
    let u3 = with_mpp(u2, 0);
    lemma_status_fields(u2, 0, false);
    assert(0u32 & 3 == 0) by (bit_vector);
}

/// Taking a trap masks interrupts: right after it MIE is clear, so an
/// interrupt offered then is ignored and leaves the hart as it is.
pub proof fn lemma_trap_masks_interrupts(c: CpuState, cause: u32, epc: u32, irq: INTERRUPT)
    requires
        c.wf(),
    ensures
        !mie_of(trap(c, cause, epc).status()),
        interrupt(trap(c, cause, epc), irq) == trap(c, cause, epc),
{
    reveal(trap);
    let s = c.status();
    let s1 = with_mpp(s, mode_bits(c.mode));
    let s2 = with_mpie(s1, mie_of(s));
    lemma_status_fields(s2, 0, false);
}

/// x0 reads as zero after every instruction that completes.
pub proof fn lemma_x0_after_execute(c: CpuState, rs: Seq<Region>, inst: INSTRUCTION)
    requires
        c.wf(),
        super::execute::operands_valid(inst),
    ensures
        execute_spec(c, rs, inst).result is Ok ==> execute_spec(c, rs, inst).cpu.regs[0] == 0,
{
    reveal(super::execute::load);
    reveal(super::execute::store);
    reveal(trap);
    reveal(mret);
}

/// x0 stays zero across a step of the hart, whatever happens in it.
pub proof fn lemma_x0_invariant(c: CpuState, rs: Seq<Region>)
    requires
        c.wf(),
        c.regs[0] == 0,
    ensures
        step_spec(c, rs).cpu.regs[0] == 0,
{
    reveal(trap);
    let (c1, rs1, f) = super::fetch::fetch_spec(c, rs);
    if let Ok(Ok(w)) = f {
        if let Some(inst) = super::decode::decode_spec(w) {
            super::decode::lemma_decoded_regs_in_range(w);
            crate::bits::lemma_and_le(w >> 20, 0xFFF);
            lemma_x0_after_execute(c1, rs1, inst);
            reveal(super::execute::load);
            reveal(super::execute::store);
        }
    }
}

/// Unsigned division and remainder fit together: for a nonzero divisor,
/// `a == b * (a / b) + a % b` with the remainder below the divisor; dividing
/// by zero gives all ones and leaves the dividend as the remainder.
pub proof fn lemma_divu_remu(a: u32, b: u32)
    ensures
        b != 0 ==> a as int == b as int * div_u(a, b) as int + rem_u(a, b) as int && rem_u(a, b)
            < b,
        b == 0 ==> div_u(a, b) == 0xFFFF_FFFF && rem_u(a, b) == a,
{
    if b != 0 {
        vstd::arithmetic::div_mod::lemma_fundamental_div_mod(a as int, b as int);
    }
}

/// Signed division rounds toward zero and fits together with the remainder:
/// for a nonzero divisor and no overflow, `a == b * q + r` with `|r| < |b|`
/// and `r` carrying the dividend's sign (or zero).
pub proof fn lemma_div_rem(a: u32, b: u32)
    requires
        b != 0,
        !(a == 0x8000_0000 && b == 0xFFFF_FFFF),
    ensures
        to_signed(a) == to_signed(b) * to_signed(div_s(a, b)) + to_signed(rem_s(a, b)),
        super::alu::abs(to_signed(rem_s(a, b))) < super::alu::abs(to_signed(b)),
        to_signed(rem_s(a, b)) == 0 || (to_signed(rem_s(a, b)) < 0) == (to_signed(a) < 0),
{
    let x = to_signed(a);
    let y = to_signed(b);
    let ax = super::alu::abs(x);
    let ay = super::alu::abs(y);
    let q = ax / ay;
    let r = ax % ay;
    vstd::arithmetic::div_mod::lemma_fundamental_div_mod(ax, ay);
    assert(0 <= r < ay);
    assert(ax <= 0x8000_0000);
    if ay >= 2 {
        vstd::arithmetic::div_mod::lemma_div_is_ordered_by_denominator(ax, 2, ay);
        assert(q <= 0x4000_0000);
    } else {
        assert(ay == 1);
        vstd::arithmetic::div_mod::lemma_div_basics(ax);
        assert(q == ax);
    }
    let sq = super::alu::trunc_div(x, y);
    let sr = super::alu::trunc_rem(x, y);
    assert(x == y * sq + sr) by (nonlinear_arith)
        requires
            ax == (if x < 0 { -x } else { x }),
            ay == (if y < 0 { -y } else { y }),
            ax == ay * q + r,
            sq == (if (x < 0) != (y < 0) { -q } else { q }),
            sr == (if x < 0 { -r } else { r }),
    ;
    assert(-0x8000_0000 <= sq <= 0x7FFF_FFFF);
    assert(-0x8000_0000 < sr < 0x8000_0000);
}

/// Outside Machine mode, CSR instructions and MRET are illegal: they trap
/// with cause 2, saving the instruction's address, and change no register and
/// no CSR other than what the trap itself writes.
pub proof fn lemma_privileged_instructions_trap(c: CpuState, rs: Seq<Region>, inst: INSTRUCTION)
    requires
        c.mode != PrivilegeMode::Machine,
        inst is MRET || inst is CSRRW || inst is CSRRS || inst is CSRRC || inst is CSRRWI
            || inst is CSRRSI || inst is CSRRCI,
    ensures
        execute_spec(c, rs, inst) == done(except(c, EXC_ILLEGAL_INSTRUCTION), rs),
{
}

/// AUIPC adds its upper immediate to the address of the AUIPC instruction
/// itself (four bytes before the pc that fetch left), modulo 2^32, and writes
/// the sum to `rd`; LUI writes the immediate alone. Neither touches the pc,
/// the other registers, the CSRs, the mode or the bus.
pub proof fn lemma_auipc_lui(c: CpuState, rs: Seq<Region>, rd: RegisterIndex, u: u32)
    requires
        c.wf(),
        rd.0 < 32,
    ensures
        ({
            let o = execute_spec(c, rs, INSTRUCTION::AUIPC(rd, u));
            &&& o.result is Ok
            &&& o.bus == rs
            &&& o.cpu.pc == c.pc
            &&& o.cpu.csrs == c.csrs
            &&& o.cpu.mode == c.mode
            &&& o.cpu.regs.len() == 32
            &&& o.cpu.regs[0] == 0
            &&& rd.0 != 0 ==> o.cpu.regs[rd.0 as int] as int == (c.pc as int - 4 + u as int)
                % 0x1_0000_0000
            &&& forall|j: int| 0 < j < 32 && j != rd.0 ==> o.cpu.regs[j] == c.regs[j]
        }),
        ({
            let o = execute_spec(c, rs, INSTRUCTION::LUI(rd, u));
            &&& o.result is Ok
            &&& o.bus == rs
            &&& o.cpu.pc == c.pc
            &&& rd.0 != 0 ==> o.cpu.regs[rd.0 as int] == u
            &&& forall|j: int| 0 < j < 32 && j != rd.0 ==> o.cpu.regs[j] == c.regs[j]
        }),
{
    let v = super::execute::value_of(c, INSTRUCTION::AUIPC(rd, u));
    assert(v as int == (c.pc as int - 4 + u as int) % 0x1_0000_0000) by {
        let t = c.pc as int - 4 + u as int;
        if t < 0 {
            vstd::arithmetic::div_mod::lemma_mod_add_multiples_vanish(t, 0x1_0000_0000);
            vstd::arithmetic::div_mod::lemma_small_mod((t + 0x1_0000_0000) as nat, 0x1_0000_0000);
        } else if t < 0x1_0000_0000 {
            vstd::arithmetic::div_mod::lemma_small_mod(t as nat, 0x1_0000_0000);
        } else {
            vstd::arithmetic::div_mod::lemma_mod_sub_multiples_vanish(t, 0x1_0000_0000);
            vstd::arithmetic::div_mod::lemma_small_mod((t - 0x1_0000_0000) as nat, 0x1_0000_0000);
        }
    }
}

/// An interrupt offered while `mstatus.MIE` (bit 3) is set is taken: the
/// hart saves the pc in MEPC, records the source in MCAUSE with bit 31 set
/// (software 3, timer 7, UART 11, keyboard 12), enters Machine mode and jumps
/// to MTVEC; with MIE clear the hart is left as it is.
pub proof fn lemma_interrupt_causes(c: CpuState, irq: INTERRUPT)
    requires
        c.wf(),
    ensures
        c.csrs[MSTATUS as int] & 0x8 == 0 ==> interrupt(c, irq) == c,
        c.csrs[MSTATUS as int] & 0x8 != 0 ==> {
            let t = interrupt(c, irq);
            &&& t.csrs[MEPC as int] == c.pc
            &&& t.pc == c.csrs[MTVEC as int]
            &&& t.mode == PrivilegeMode::Machine
            &&& t.regs == c.regs
            &&& t.csrs[MCAUSE as int] == match irq {
                INTERRUPT::SOFTWARE => 0x8000_0003u32,
                INTERRUPT::TIMER => 0x8000_0007u32,
                INTERRUPT::UART => 0x8000_000Bu32,
                INTERRUPT::KEYBOARD => 0x8000_000Cu32,
            }
        },
{
    reveal(trap);
}

/// A word read as a two's-complement signed number.
pub open spec fn signed_value(x: u32) -> int {
    if x >= 0x8000_0000 {
        x as int - 0x1_0000_0000
    } else {
        x as int
    }
}

/// The instruction completed, leaving the bus, the CSRs and the mode alone,
/// and moved the pc to `pc`; `rd` (unless it is x0) received `v` and every
/// other register kept its value.
pub open spec fn completed_with(o: Outcome, c: CpuState, rs: Seq<Region>, pc: u32, rd: int, v: u32) -> bool {
    &&& o.result is Ok
    &&& o.bus == rs
    &&& o.cpu.pc == pc
    &&& o.cpu.csrs == c.csrs
    &&& o.cpu.mode == c.mode
    &&& o.cpu.regs.len() == 32
    &&& o.cpu.regs[0] == 0
    &&& rd != 0 ==> o.cpu.regs[rd] == v
    &&& forall|j: int| 0 < j < 32 && j != rd ==> o.cpu.regs[j] == c.regs[j]
}

/// Register-register arithmetic: ADD and SUB wrap modulo 2^32, SLT compares
/// as signed and SLTU as unsigned numbers, MUL keeps the low word of the
/// product.
pub proof fn lemma_register_arithmetic(
    c: CpuState,
    rs: Seq<Region>,
    rd: RegisterIndex,
    a: RegisterIndex,
    b: RegisterIndex,
)
    requires
        c.wf(),
        rd.0 < 32,
        a.0 < 32,
        b.0 < 32,
    ensures
        ({
            let (x, y, d) = (c.regs[a.0 as int], c.regs[b.0 as int], rd.0 as int);
            &&& completed_with(
                execute_spec(c, rs, INSTRUCTION::ADD(rd, a, b)),
                c,
                rs,
                c.pc,
                d,
                ((x as int + y as int) % 0x1_0000_0000) as u32,
            )
            &&& completed_with(
                execute_spec(c, rs, INSTRUCTION::SUB(rd, a, b)),
                c,
                rs,
                c.pc,
                d,
                ((x as int - y as int) % 0x1_0000_0000) as u32,
            )
            &&& completed_with(
                execute_spec(c, rs, INSTRUCTION::SLT(rd, a, b)),
                c,
                rs,
                c.pc,
                d,
                if signed_value(x) < signed_value(y) { 1 } else { 0 },
            )
            &&& completed_with(
                execute_spec(c, rs, INSTRUCTION::SLTU(rd, a, b)),
                c,
                rs,
                c.pc,
                d,
                if x < y { 1 } else { 0 },
            )
            &&& completed_with(
                execute_spec(c, rs, INSTRUCTION::MUL(rd, a, b)),
                c,
                rs,
                c.pc,
                d,
                ((x as int * y as int) % 0x1_0000_0000) as u32,
            )
        }),
{
    let (x, y) = (c.regs[a.0 as int], c.regs[b.0 as int]);
    let m = 0x1_0000_0000int;
    let t = x as int + y as int;
    if t < m {
        vstd::arithmetic::div_mod::lemma_small_mod(t as nat, m as nat);
    } else {
        vstd::arithmetic::div_mod::lemma_mod_sub_multiples_vanish(t, m);
        vstd::arithmetic::div_mod::lemma_small_mod((t - m) as nat, m as nat);
    }
    let t2 = x as int - y as int;
    if t2 >= 0 {
        vstd::arithmetic::div_mod::lemma_small_mod(t2 as nat, m as nat);
    } else {
        vstd::arithmetic::div_mod::lemma_mod_add_multiples_vanish(t2, m);
        vstd::arithmetic::div_mod::lemma_small_mod((t2 + m) as nat, m as nat);
    }
}

/// Branches and jumps. A conditional branch whose condition holds goes to
/// the branch's own address (pc - 4) plus the signed offset, modulo 2^32, and
/// otherwise falls through; BEQ/BNE compare for (in)equality, BLT/BGE as
/// signed and BLTU/BGEU as unsigned numbers. No register changes. JAL links
/// the pc of the next instruction and jumps relative to its own address;
/// JALR links likewise and jumps to `x(a) + offset` with bit 0 cleared.
pub proof fn lemma_control_flow(
    c: CpuState,
    rs: Seq<Region>,
    a: RegisterIndex,
    b: RegisterIndex,
    i: Immediate,
    rd: RegisterIndex,
    off: u32,
)
    requires
        c.wf(),
        a.0 < 32,
        b.0 < 32,
        rd.0 < 32,
    ensures
        ({
            let (x, y) = (c.regs[a.0 as int], c.regs[b.0 as int]);
            let target = ((c.pc as int - 4 + i.0 as int) % 0x1_0000_0000) as u32;
            let to = |taken: bool| if taken { target } else { c.pc };
            &&& completed_with(execute_spec(c, rs, INSTRUCTION::BEQ(a, b, i)), c, rs, to(x == y), 0, 0)
            &&& completed_with(execute_spec(c, rs, INSTRUCTION::BNE(a, b, i)), c, rs, to(x != y), 0, 0)
            &&& completed_with(
                execute_spec(c, rs, INSTRUCTION::BLT(a, b, i)),
                c,
                rs,
                to(signed_value(x) < signed_value(y)),
                0,
                0,
            )
            &&& completed_with(
                execute_spec(c, rs, INSTRUCTION::BGE(a, b, i)),
                c,
                rs,
                to(signed_value(x) >= signed_value(y)),
                0,
                0,
            )
            &&& completed_with(execute_spec(c, rs, INSTRUCTION::BLTU(a, b, i)), c, rs, to(x < y), 0, 0)
            &&& completed_with(execute_spec(c, rs, INSTRUCTION::BGEU(a, b, i)), c, rs, to(x >= y), 0, 0)
            &&& completed_with(
                execute_spec(c, rs, INSTRUCTION::JAL(rd, off)),
                c,
                rs,
                ((c.pc as int - 4 + off as int) % 0x1_0000_0000) as u32,
                rd.0 as int,
                c.pc,
            )
            &&& completed_with(
                execute_spec(c, rs, INSTRUCTION::JALR(rd, a, i)),
                c,
                rs,
                (((x as int + i.0 as int) % 0x1_0000_0000) as u32) & 0xFFFF_FFFE,
                rd.0 as int,
                c.pc,
            )
        }),
{
    let m = 0x1_0000_0000int;
    let x = c.regs[a.0 as int];
    let t = c.pc as int - 4 + i.0 as int;
    assert(super::types::wrap_add(super::types::wrap_sub(c.pc, 4), super::alu::imm_u32(i)) as int
        == t % m) by {
        lemma_wrap_mod(t);
    }
    let t2 = c.pc as int - 4 + off as int;
    assert(super::types::wrap_add(super::types::wrap_sub(c.pc, 4), off) as int == t2 % m) by {
        lemma_wrap_mod(t2);
    }
    let t3 = x as int + i.0 as int;
    assert(super::types::wrap_add(x, super::alu::imm_u32(i)) as int == t3 % m) by {
        lemma_wrap_mod(t3);
    }
}

/// A value within one wrap of the 32-bit range, reduced modulo 2^32.
proof fn lemma_wrap_mod(t: int)
    requires
        -0x1_0000_0000 <= t < 0x2_0000_0000,
    ensures
        t < 0 ==> t % 0x1_0000_0000 == t + 0x1_0000_0000,
        0 <= t < 0x1_0000_0000 ==> t % 0x1_0000_0000 == t,
        t >= 0x1_0000_0000 ==> t % 0x1_0000_0000 == t - 0x1_0000_0000,
{
    let m = 0x1_0000_0000int;
    if t < 0 {
        vstd::arithmetic::div_mod::lemma_mod_add_multiples_vanish(t, m);
        vstd::arithmetic::div_mod::lemma_small_mod((t + m) as nat, m as nat);
    } else if t < m {
        vstd::arithmetic::div_mod::lemma_small_mod(t as nat, m as nat);
    } else {
        vstd::arithmetic::div_mod::lemma_mod_sub_multiples_vanish(t, m);
        vstd::arithmetic::div_mod::lemma_small_mod((t - m) as nat, m as nat);
    }
}

/// Byte loads and stores in Machine mode, on RAM: the address is
/// `x(a) + offset` modulo 2^32; LB sign-extends the byte there (bit 7 copied
/// into bits 31..8), LBU zero-extends it, and SB writes the low byte of
/// `x(b)` there and changes no register.
pub proof fn lemma_byte_loads_stores(
    c: CpuState,
    rs: Seq<Region>,
    rd: RegisterIndex,
    a: RegisterIndex,
    b: RegisterIndex,
    i: Immediate,
)
    requires
        c.wf(),
        c.mode == PrivilegeMode::Machine,
        rd.0 < 32,
        a.0 < 32,
        b.0 < 32,
        crate::bus::laws::is_ram(
            rs,
            ((c.regs[a.0 as int] as int + i.0 as int) % 0x1_0000_0000) as u32,
        ),
    ensures
        ({
            let addr = ((c.regs[a.0 as int] as int + i.0 as int) % 0x1_0000_0000) as u32;
            let byte = crate::bus::bus_read8(rs, addr).1;
            &&& completed_with(
                execute_spec(c, rs, INSTRUCTION::LB(rd, a, i)),
                c,
                rs,
                c.pc,
                rd.0 as int,
                if byte >= 0x80 { (byte as int + 0xFFFF_FF00) as u32 } else { byte as u32 },
            )
            &&& completed_with(
                execute_spec(c, rs, INSTRUCTION::LBU(rd, a, i)),
                c,
                rs,
                c.pc,
                rd.0 as int,
                byte as u32,
            )
            &&& completed_with(
                execute_spec(c, rs, INSTRUCTION::SB(a, b, i)),
                c,
                crate::bus::bus_write8(rs, addr, (c.regs[b.0 as int] % 0x100) as u8),
                c.pc,
                0,
                0,
            )
        }),
{
    reveal(super::execute::load);
    reveal(super::execute::store);
    let x = c.regs[a.0 as int];
    let t = x as int + i.0 as int;
    lemma_wrap_mod(t);
    let addr = super::types::wrap_add(x, super::alu::imm_u32(i));
    assert(addr as int == t % 0x1_0000_0000);
    crate::mmu::lemma_translate_bypass(addr, crate::mmu::AccessType::Load, c.csrs[super::cpu::SATP as int], c.mode, rs);
    crate::mmu::lemma_translate_bypass(addr, crate::mmu::AccessType::Store, c.csrs[super::cpu::SATP as int], c.mode, rs);
    crate::bus::lemma_first_fault(rs, addr, 0, 1);
    assert(super::types::wrap_add(addr, 0) == addr);
    crate::bus::laws::lemma_ram_read_pure(rs, addr);
}

} // verus!
