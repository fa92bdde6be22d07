//! Instruction decoding.
use vstd::prelude::*;
use super::types::{
    Immediate, INSTRUCTION, RawInstruction, RegisterIndex, b_imm_of, csr_of, funct3_of, funct7_of,
    i_imm_of, j_imm_of, opcode_of, rd_of, rs1_of, rs2_of, s_imm_of, u_imm_of,
};
use super::cpu::CPU;

verus! {

pub open spec fn reg(x: u32) -> RegisterIndex {
    RegisterIndex(x as u8)
}

pub open spec fn imm(x: int) -> Immediate {
    Immediate(x as i32)
}

pub const OP_IMM: u32 = 0b0010011;
pub const OP: u32 = 0b0110011;
pub const LOAD: u32 = 0b0000011;
pub const STORE: u32 = 0b0100011;
pub const BRANCH: u32 = 0b1100011;
pub const JAL: u32 = 0b1101111;
pub const JALR: u32 = 0b1100111;
pub const LUI: u32 = 0b0110111;
pub const AUIPC: u32 = 0b0010111;
pub const SYSTEM: u32 = 0b1110011;

/// Register-immediate arithmetic (OP-IMM). The shift amount of the immediate
/// shifts is the rs2 field.
pub open spec fn decode_op_imm(w: u32) -> Option<INSTRUCTION> {
    let (rd, rs1, f3) = (reg(rd_of(w)), reg(rs1_of(w)), funct3_of(w));
    if f3 == 0b000 {
        Some(INSTRUCTION::ADDI(rd, rs1, imm(i_imm_of(w))))
    } else if f3 == 0b100 {
        Some(INSTRUCTION::XORI(rd, rs1, imm(i_imm_of(w))))
    } else if f3 == 0b110 {
        Some(INSTRUCTION::ORI(rd, rs1, imm(i_imm_of(w))))
    } else if f3 == 0b111 {
        Some(INSTRUCTION::ANDI(rd, rs1, imm(i_imm_of(w))))
    } else if f3 == 0b001 {
        Some(INSTRUCTION::SLLI(rd, rs1, reg(rs2_of(w))))
    } else if f3 == 0b101 {
        if funct7_of(w) == 0 {
            Some(INSTRUCTION::SRLI(rd, rs1, reg(rs2_of(w))))
        } else if funct7_of(w) == 0b0100000 {
            Some(INSTRUCTION::SRAI(rd, rs1, reg(rs2_of(w))))
        } else {
            None
        }
    } else if f3 == 0b010 {
        Some(INSTRUCTION::SLTI(rd, rs1, imm(i_imm_of(w))))
    } else {
        Some(INSTRUCTION::SLTIU(rd, rs1, imm(i_imm_of(w))))
    }
}

/// Register-register arithmetic (OP), including the M extension
/// (funct7 = 1). Under funct3 001, 010 and 011 any funct7 other than 1
/// selects SLL, SLT and SLTU.
pub open spec fn decode_op(w: u32) -> Option<INSTRUCTION> {
    let (rd, rs1, rs2, f3, f7) = (
        reg(rd_of(w)),
        reg(rs1_of(w)),
        reg(rs2_of(w)),
        funct3_of(w),
        funct7_of(w),
    );
    if f3 == 0b000 {
        if f7 == 0 {
            Some(INSTRUCTION::ADD(rd, rs1, rs2))
        } else if f7 == 0b0100000 {
            Some(INSTRUCTION::SUB(rd, rs1, rs2))
        } else if f7 == 1 {
            Some(INSTRUCTION::MUL(rd, rs1, rs2))
        } else {
            None
        }
    } else if f3 == 0b100 {
        if f7 == 0 {
            Some(INSTRUCTION::XOR(rd, rs1, rs2))
        } else if f7 == 1 {
            Some(INSTRUCTION::DIV(rd, rs1, rs2))
        } else {
            None
        }
    } else if f3 == 0b110 {
        if f7 == 0 {
            Some(INSTRUCTION::OR(rd, rs1, rs2))
        } else if f7 == 1 {
            Some(INSTRUCTION::REM(rd, rs1, rs2))
        } else {
            None
        }
    } else if f3 == 0b111 {
        if f7 == 0 {
            Some(INSTRUCTION::AND(rd, rs1, rs2))
        } else if f7 == 1 {
            Some(INSTRUCTION::REMU(rd, rs1, rs2))
        } else {
            None
        }
    } else if f3 == 0b001 {
        if f7 == 1 {
            Some(INSTRUCTION::MULH(rd, rs1, rs2))
        } else {
            Some(INSTRUCTION::SLL(rd, rs1, rs2))
        }
    } else if f3 == 0b101 {
        if f7 == 0 {
            Some(INSTRUCTION::SRL(rd, rs1, rs2))
        } else if f7 == 0b0100000 {
            Some(INSTRUCTION::SRA(rd, rs1, rs2))
        } else if f7 == 1 {
            Some(INSTRUCTION::DIVU(rd, rs1, rs2))
        } else {
            None
        }
    } else if f3 == 0b010 {
        if f7 == 1 {
            Some(INSTRUCTION::MULHSU(rd, rs1, rs2))
        } else {
            Some(INSTRUCTION::SLT(rd, rs1, rs2))
        }
    } else {
        if f7 == 1 {
            Some(INSTRUCTION::MULHU(rd, rs1, rs2))
        } else {
            Some(INSTRUCTION::SLTU(rd, rs1, rs2))
        }
    }
}

pub open spec fn decode_load(w: u32) -> Option<INSTRUCTION> {
    let (rd, rs1, i, f3) = (reg(rd_of(w)), reg(rs1_of(w)), imm(i_imm_of(w)), funct3_of(w));
    if f3 == 0b000 {
        Some(INSTRUCTION::LB(rd, rs1, i))
    } else if f3 == 0b001 {
        Some(INSTRUCTION::LH(rd, rs1, i))
    } else if f3 == 0b010 {
        Some(INSTRUCTION::LW(rd, rs1, i))
    } else if f3 == 0b100 {
        Some(INSTRUCTION::LBU(rd, rs1, i))
    } else if f3 == 0b101 {
        Some(INSTRUCTION::LHU(rd, rs1, i))
    } else {
        None
    }
}

pub open spec fn decode_store(w: u32) -> Option<INSTRUCTION> {
    let (rs1, rs2, i, f3) = (reg(rs1_of(w)), reg(rs2_of(w)), imm(s_imm_of(w)), funct3_of(w));
    if f3 == 0b000 {
        Some(INSTRUCTION::SB(rs1, rs2, i))
    } else if f3 == 0b001 {
        Some(INSTRUCTION::SH(rs1, rs2, i))
    } else if f3 == 0b010 {
        Some(INSTRUCTION::SW(rs1, rs2, i))
    } else {
        None
    }
}

pub open spec fn decode_branch(w: u32) -> Option<INSTRUCTION> {
    let (rs1, rs2, i, f3) = (reg(rs1_of(w)), reg(rs2_of(w)), imm(b_imm_of(w)), funct3_of(w));
    if f3 == 0b000 {
        Some(INSTRUCTION::BEQ(rs1, rs2, i))
    } else if f3 == 0b001 {
        Some(INSTRUCTION::BNE(rs1, rs2, i))
    } else if f3 == 0b100 {
        Some(INSTRUCTION::BLT(rs1, rs2, i))
    } else if f3 == 0b101 {
        Some(INSTRUCTION::BGE(rs1, rs2, i))
    } else if f3 == 0b110 {
        Some(INSTRUCTION::BLTU(rs1, rs2, i))
    } else if f3 == 0b111 {
        Some(INSTRUCTION::BGEU(rs1, rs2, i))
    } else {
        None
    }
}

/// SYSTEM: ECALL (csr 0) and MRET (csr 0x302) under funct3 0; the CSR
/// instructions under the other funct3 values, the immediate forms taking
/// the rs1 field as a 5-bit immediate.
pub open spec fn decode_system(w: u32) -> Option<INSTRUCTION> {
    let (rd, f3, csr) = (reg(rd_of(w)), funct3_of(w), csr_of(w) as u16);
    if f3 == 0b000 {
        if csr_of(w) == 0 {
            Some(INSTRUCTION::ECALL)
        } else if csr_of(w) == 0x302 {
            Some(INSTRUCTION::MRET)
        } else {
            None
        }
    } else if f3 == 0b001 {
        Some(INSTRUCTION::CSRRW(rd, reg(rs1_of(w)), csr))
    } else if f3 == 0b010 {
        Some(INSTRUCTION::CSRRS(rd, reg(rs1_of(w)), csr))
    } else if f3 == 0b011 {
        Some(INSTRUCTION::CSRRC(rd, reg(rs1_of(w)), csr))
    } else if f3 == 0b101 {
        Some(INSTRUCTION::CSRRWI(rd, rs1_of(w) as u8, csr))
    } else if f3 == 0b110 {
        Some(INSTRUCTION::CSRRSI(rd, rs1_of(w) as u8, csr))
    } else if f3 == 0b111 {
        Some(INSTRUCTION::CSRRCI(rd, rs1_of(w) as u8, csr))
    } else {
        None
    }
}

/// The instruction a word encodes, or `None` for an encoding outside the
/// supported set.
pub open spec fn decode_spec(w: u32) -> Option<INSTRUCTION> {
    let op = opcode_of(w);
    if op == OP_IMM {
        decode_op_imm(w)
    } else if op == OP {
        decode_op(w)
    } else if op == LOAD {
        decode_load(w)
    } else if op == STORE {
        decode_store(w)
    } else if op == BRANCH {
        decode_branch(w)
    } else if op == JAL {
        Some(INSTRUCTION::JAL(reg(rd_of(w)), j_imm_of(w)))
    } else if op == JALR {
        if funct3_of(w) == 0 {
            Some(INSTRUCTION::JALR(reg(rd_of(w)), reg(rs1_of(w)), imm(i_imm_of(w))))
        } else {
            None
        }
    } else if op == LUI {
        Some(INSTRUCTION::LUI(reg(rd_of(w)), u_imm_of(w)))
    } else if op == AUIPC {
        Some(INSTRUCTION::AUIPC(reg(rd_of(w)), u_imm_of(w)))
    } else if op == SYSTEM {
        decode_system(w)
    } else {
        None
    }
}

/// Every register operand of a decoded instruction names one of the 32
/// registers.
pub open spec fn regs_in_range(inst: INSTRUCTION) -> bool {
    match inst {
        INSTRUCTION::ADDI(a, b, _) | INSTRUCTION::XORI(a, b, _) | INSTRUCTION::ANDI(a, b, _)
        | INSTRUCTION::ORI(a, b, _) | INSTRUCTION::SLTI(a, b, _) | INSTRUCTION::SLTIU(a, b, _)
        | INSTRUCTION::LB(a, b, _) | INSTRUCTION::LH(a, b, _) | INSTRUCTION::LW(a, b, _)
        | INSTRUCTION::LBU(a, b, _) | INSTRUCTION::LHU(a, b, _) | INSTRUCTION::SB(a, b, _)
        | INSTRUCTION::SH(a, b, _) | INSTRUCTION::SW(a, b, _) | INSTRUCTION::BEQ(a, b, _)
        | INSTRUCTION::BNE(a, b, _) | INSTRUCTION::BLT(a, b, _) | INSTRUCTION::BGE(a, b, _)
        | INSTRUCTION::BLTU(a, b, _) | INSTRUCTION::BGEU(a, b, _) | INSTRUCTION::JALR(a, b, _)
        | INSTRUCTION::CSRRW(a, b, _) | INSTRUCTION::CSRRS(a, b, _) | INSTRUCTION::CSRRC(
            a,
            b,
            _,
        ) => a.0 < 32 && b.0 < 32,
        INSTRUCTION::ADD(a, b, c) | INSTRUCTION::SUB(a, b, c) | INSTRUCTION::AND(a, b, c)
        | INSTRUCTION::OR(a, b, c) | INSTRUCTION::XOR(a, b, c) | INSTRUCTION::SLLI(a, b, c)
        | INSTRUCTION::SRLI(a, b, c) | INSTRUCTION::SRAI(a, b, c) | INSTRUCTION::SLL(a, b, c)
        | INSTRUCTION::SRL(a, b, c) | INSTRUCTION::SRA(a, b, c) | INSTRUCTION::SLT(a, b, c)
        | INSTRUCTION::SLTU(a, b, c) | INSTRUCTION::MUL(a, b, c) | INSTRUCTION::MULH(a, b, c)
        | INSTRUCTION::MULHSU(a, b, c) | INSTRUCTION::MULHU(a, b, c) | INSTRUCTION::DIV(
            a,
            b,
            c,
        ) | INSTRUCTION::DIVU(a, b, c) | INSTRUCTION::REM(a, b, c) | INSTRUCTION::REMU(a, b, c) => a.0
            < 32 && b.0 < 32 && c.0 < 32,
        INSTRUCTION::JAL(a, _) | INSTRUCTION::LUI(a, _) | INSTRUCTION::AUIPC(a, _)
        | INSTRUCTION::CSRRWI(a, _, _) | INSTRUCTION::CSRRSI(a, _, _) | INSTRUCTION::CSRRCI(
            a,
            _,
            _,
        ) => a.0 < 32,
        INSTRUCTION::ECALL | INSTRUCTION::MRET => true,
    }
}

/// Decoded register fields are five bits wide.
pub proof fn lemma_decoded_regs_in_range(w: u32)
    ensures
        decode_spec(w) matches Some(inst) ==> regs_in_range(inst),
{
    crate::bits::lemma_and_le(w >> 7, 0x1F);
    crate::bits::lemma_and_le(w >> 15, 0x1F);
    crate::bits::lemma_and_le(w >> 20, 0x1F);
}

impl CPU {
    /// Decodes an instruction word; `None` for an encoding outside the
    /// supported set.
    pub fn decode(inst: RawInstruction) -> (r: Option<INSTRUCTION>)
        ensures
            r == decode_spec(inst.0),
    {
        let opcode = inst.opcode();
        match opcode.0 {
            0b0010011 => Self::decode_op_imm(&inst),
            0b0110011 => Self::decode_op(&inst),
            0b0000011 => {
                let funct3 = inst.funct3();
                let rd = inst.rd();
                let rs1 = inst.rs1();
                let imm = inst.i_imm();
                match funct3.0 {
                    0b000 => Some(INSTRUCTION::LB(rd, rs1, imm)),
                    0b001 => Some(INSTRUCTION::LH(rd, rs1, imm)),
                    0b010 => Some(INSTRUCTION::LW(rd, rs1, imm)),
                    0b100 => Some(INSTRUCTION::LBU(rd, rs1, imm)),
                    0b101 => Some(INSTRUCTION::LHU(rd, rs1, imm)),
                    _ => None,
                }
            },
            0b0100011 => {
                let funct3 = inst.funct3();
                let rs1 = inst.rs1();
                let rs2 = inst.rs2();
                let imm = inst.s_imm();
                match funct3.0 {
                    0b000 => Some(INSTRUCTION::SB(rs1, rs2, imm)),
                    0b001 => Some(INSTRUCTION::SH(rs1, rs2, imm)),
                    0b010 => Some(INSTRUCTION::SW(rs1, rs2, imm)),
                    _ => None,
                }
            },
            0b1100011 => {
                let funct3 = inst.funct3();
                let rs1 = inst.rs1();
                let rs2 = inst.rs2();
                let imm = inst.b_imm();
                match funct3.0 {
                    0b000 => Some(INSTRUCTION::BEQ(rs1, rs2, imm)),
                    0b001 => Some(INSTRUCTION::BNE(rs1, rs2, imm)),
                    0b100 => Some(INSTRUCTION::BLT(rs1, rs2, imm)),
                    0b101 => Some(INSTRUCTION::BGE(rs1, rs2, imm)),
                    0b110 => Some(INSTRUCTION::BLTU(rs1, rs2, imm)),
                    0b111 => Some(INSTRUCTION::BGEU(rs1, rs2, imm)),
                    _ => None,
                }
            },
            0b1101111 => Some(INSTRUCTION::JAL(inst.rd(), inst.j_imm())),
            0b1100111 => {
                let funct3 = inst.funct3();
                if funct3.0 == 0b000 {
                    Some(INSTRUCTION::JALR(inst.rd(), inst.rs1(), inst.i_imm()))
                } else {
                    None
                }
            },
            0b0110111 => Some(INSTRUCTION::LUI(inst.rd(), inst.u_imm())),
            0b0010111 => Some(INSTRUCTION::AUIPC(inst.rd(), inst.u_imm())),
            0b1110011 => Self::decode_system(&inst),
            _ => None,
        }
    }

    fn decode_op_imm(inst: &RawInstruction) -> (r: Option<INSTRUCTION>)
        requires
            opcode_of(inst.0) == OP_IMM,
        ensures
            r == decode_op_imm(inst.0),
    {
        let funct3 = inst.funct3();
        let rd = inst.rd();
        let rs1 = inst.rs1();
        match funct3.0 {
            0b000 => Some(INSTRUCTION::ADDI(rd, rs1, inst.i_imm())),
            0b100 => Some(INSTRUCTION::XORI(rd, rs1, inst.i_imm())),
            0b110 => Some(INSTRUCTION::ORI(rd, rs1, inst.i_imm())),
            0b111 => Some(INSTRUCTION::ANDI(rd, rs1, inst.i_imm())),
            0b001 => Some(INSTRUCTION::SLLI(rd, rs1, inst.rs2())),
            0b101 => {
                let funct7 = inst.funct7();
                match funct7.0 {
                    0b0 => Some(INSTRUCTION::SRLI(rd, rs1, inst.rs2())),
                    0b0100000 => Some(INSTRUCTION::SRAI(rd, rs1, inst.rs2())),
                    _ => None,
                }
            },
            0b010 => Some(INSTRUCTION::SLTI(rd, rs1, inst.i_imm())),
            _ => Some(INSTRUCTION::SLTIU(rd, rs1, inst.i_imm())),
        }
    }

    fn decode_op(inst: &RawInstruction) -> (r: Option<INSTRUCTION>)
        requires
            opcode_of(inst.0) == OP,
        ensures
            r == decode_op(inst.0),
    {
        let funct3 = inst.funct3();
        let funct7 = inst.funct7();
        let rd = inst.rd();
        let rs1 = inst.rs1();
        let rs2 = inst.rs2();
        match funct3.0 {
            0b000 => match funct7.0 {
                0b0000000 => Some(INSTRUCTION::ADD(rd, rs1, rs2)),
                0b0100000 => Some(INSTRUCTION::SUB(rd, rs1, rs2)),
                0b0000001 => Some(INSTRUCTION::MUL(rd, rs1, rs2)),
                _ => None,
            },
            0b100 => match funct7.0 {
                0b0 => Some(INSTRUCTION::XOR(rd, rs1, rs2)),
                0b0000001 => Some(INSTRUCTION::DIV(rd, rs1, rs2)),
                _ => None,
            },
            0b110 => match funct7.0 {
                0b0 => Some(INSTRUCTION::OR(rd, rs1, rs2)),
                0b0000001 => Some(INSTRUCTION::REM(rd, rs1, rs2)),
                _ => None,
            },
            0b111 => match funct7.0 {
                0b0 => Some(INSTRUCTION::AND(rd, rs1, rs2)),
                0b0000001 => Some(INSTRUCTION::REMU(rd, rs1, rs2)),
                _ => None,
            },
            0b001 => match funct7.0 {
                0b0000001 => Some(INSTRUCTION::MULH(rd, rs1, rs2)),
                _ => Some(INSTRUCTION::SLL(rd, rs1, rs2)),
            },
            0b101 => match funct7.0 {
                0b0 => Some(INSTRUCTION::SRL(rd, rs1, rs2)),
                0b0100000 => Some(INSTRUCTION::SRA(rd, rs1, rs2)),
                0b0000001 => Some(INSTRUCTION::DIVU(rd, rs1, rs2)),
                _ => None,
            },
            0b010 => match funct7.0 {
                0b0000001 => Some(INSTRUCTION::MULHSU(rd, rs1, rs2)),
                _ => Some(INSTRUCTION::SLT(rd, rs1, rs2)),
            },
            _ => match funct7.0 {
                0b0000001 => Some(INSTRUCTION::MULHU(rd, rs1, rs2)),
                _ => Some(INSTRUCTION::SLTU(rd, rs1, rs2)),
            },
        }
    }

    fn decode_system(inst: &RawInstruction) -> (r: Option<INSTRUCTION>)
        requires
            opcode_of(inst.0) == SYSTEM,
        ensures
            r == decode_system(inst.0),
    {
        let funct3 = inst.funct3();
        let csr = inst.csr();
        match funct3.0 {
            0b000 => {
                if csr == 0x000 {
                    Some(INSTRUCTION::ECALL)
                } else if csr == 0x302 {
                    Some(INSTRUCTION::MRET)
                } else {
                    None
                }
            },
            0b001 => Some(INSTRUCTION::CSRRW(inst.rd(), inst.rs1(), csr)),
            0b010 => Some(INSTRUCTION::CSRRS(inst.rd(), inst.rs1(), csr)),
            0b011 => Some(INSTRUCTION::CSRRC(inst.rd(), inst.rs1(), csr)),
            0b101 => Some(INSTRUCTION::CSRRWI(inst.rd(), inst.rs1().0, csr)),
            0b110 => Some(INSTRUCTION::CSRRSI(inst.rd(), inst.rs1().0, csr)),
            0b111 => Some(INSTRUCTION::CSRRCI(inst.rd(), inst.rs1().0, csr)),
            _ => None,
        }
    }
}

} // verus!
