//! Decoding what the encoders produce gives back the instruction encoded.
use vstd::prelude::*;
use super::{
    OPCODE_BRANCH, OPCODE_LOAD, OPCODE_OP, OPCODE_OP_IMM, OPCODE_STORE, OPCODE_SYSTEM, b_type_word,
    i_type_word, r_type_word, s_type_word,
};
use crate::cpu::decode::{decode_spec, imm, reg};
use crate::cpu::types::{
    INSTRUCTION, b_imm_of, csr_of, funct3_of, funct7_of, opcode_of, rd_of, rs1_of, rs2_of,
    sext12,
};

verus! {

/// The fields of an R-type word read back as written.
pub proof fn lemma_r_fields(op: u32, f3: u32, f7: u32, rd: u32, rs1: u32, rs2: u32)
    by (bit_vector)
    requires
        op < 128,
        f3 < 8,
        f7 < 128,
        rd < 32,
        rs1 < 32,
        rs2 < 32,
    ensures
        opcode_of(r_type_word(op, f3, f7, rd, rs1, rs2)) == op,
        funct3_of(r_type_word(op, f3, f7, rd, rs1, rs2)) == f3,
        funct7_of(r_type_word(op, f3, f7, rd, rs1, rs2)) == f7,
        rd_of(r_type_word(op, f3, f7, rd, rs1, rs2)) == rd,
        rs1_of(r_type_word(op, f3, f7, rd, rs1, rs2)) == rs1,
        rs2_of(r_type_word(op, f3, f7, rd, rs1, rs2)) == rs2,
{
}

/// The fields of an I-type word read back as written; the immediate field
/// also reads as rs2 (its low five bits), funct7 (its high seven) and csr.
pub proof fn lemma_i_fields(op: u32, f3: u32, rd: u32, rs1: u32, imm: u32)
    by (bit_vector)
    requires
        op < 128,
        f3 < 8,
        rd < 32,
        rs1 < 32,
    ensures
        opcode_of(i_type_word(op, f3, rd, rs1, imm)) == op,
        funct3_of(i_type_word(op, f3, rd, rs1, imm)) == f3,
        rd_of(i_type_word(op, f3, rd, rs1, imm)) == rd,
        rs1_of(i_type_word(op, f3, rd, rs1, imm)) == rs1,
        (i_type_word(op, f3, rd, rs1, imm) >> 20) & 0xFFF == imm & 0xFFF,
        csr_of(i_type_word(op, f3, rd, rs1, imm)) == imm & 0xFFF,
        rs2_of(i_type_word(op, f3, rd, rs1, imm)) == imm & 0x1F,
        funct7_of(i_type_word(op, f3, rd, rs1, imm)) == (imm & 0xFFF) >> 5,
{
}

/// The immediate fields of the shift encoders.
pub proof fn lemma_shift_imm(shamt: u32)
    by (bit_vector)
    ensures
        (shamt & 0x1F) & 0x1F == shamt & 0x1F,
        ((shamt & 0x1F) & 0xFFF) >> 5 == 0,
        ((shamt & 0x1F) | 0x400) & 0x1F == shamt & 0x1F,
        (((shamt & 0x1F) | 0x400) & 0xFFF) >> 5 == 0x20,
        shamt & 0x1F < 32,
{
}

/// The fields of an S-type word read back as written.
pub proof fn lemma_s_fields(op: u32, f3: u32, rs1: u32, rs2: u32, imm: u32)
    by (bit_vector)
    requires
        op < 128,
        f3 < 8,
        rs1 < 32,
        rs2 < 32,
    ensures
        opcode_of(s_type_word(op, f3, rs1, rs2, imm)) == op,
        funct3_of(s_type_word(op, f3, rs1, rs2, imm)) == f3,
        rs1_of(s_type_word(op, f3, rs1, rs2, imm)) == rs1,
        rs2_of(s_type_word(op, f3, rs1, rs2, imm)) == rs2,
        ((s_type_word(op, f3, rs1, rs2, imm) >> 25) & 0x7F) * 32 + ((s_type_word(
            op,
            f3,
            rs1,
            rs2,
            imm,
        ) >> 7) & 0x1F) == imm & 0xFFF,
{
}

/// The fields of a B-type word read back as written: the offset comes back
/// with bit 0 cleared and the bits above 12 dropped.
pub proof fn lemma_b_fields(op: u32, f3: u32, rs1: u32, rs2: u32, imm: u32)
    by (bit_vector)
    requires
        op < 128,
        f3 < 8,
        rs1 < 32,
        rs2 < 32,
    ensures
        opcode_of(b_type_word(op, f3, rs1, rs2, imm)) == op,
        funct3_of(b_type_word(op, f3, rs1, rs2, imm)) == f3,
        rs1_of(b_type_word(op, f3, rs1, rs2, imm)) == rs1,
        rs2_of(b_type_word(op, f3, rs1, rs2, imm)) == rs2,
        (b_type_word(op, f3, rs1, rs2, imm) >> 31) & 0x1 == (imm >> 12) & 0x1,
        ((b_type_word(op, f3, rs1, rs2, imm) >> 31) & 0x1) * 0x1000 + ((b_type_word(
            op,
            f3,
            rs1,
            rs2,
            imm,
        ) >> 7) & 0x1) * 0x800 + ((b_type_word(op, f3, rs1, rs2, imm) >> 25) & 0x3F) * 0x20 + ((
        b_type_word(op, f3, rs1, rs2, imm) >> 8) & 0xF) * 0x2 == imm & 0x1FFE,
{
}

/// An even offset within +-4 KiB survives the B-type encoding unchanged.
pub proof fn lemma_branch_offset_bits(u: u32)
    by (bit_vector)
    requires
        u <= 0xFFE || u >= 0xFFFF_F000,
        u & 1 == 0,
    ensures
        u <= 0xFFE ==> (u >> 12) & 0x1 == 0 && u & 0x1FFE == u,
        u >= 0xFFFF_F000 ==> (u >> 12) & 0x1 == 1 && u & 0x1FFE == u - 0xFFFF_E000,
{
}

/// Decoding an encoded R-type instruction gives it back, for every R-type
/// encoder (base integer and M extension).
pub proof fn lemma_decode_r_type(rd: u32, rs1: u32, rs2: u32)
    requires
        rd < 32,
        rs1 < 32,
        rs2 < 32,
    ensures
        decode_spec(r_type_word(OPCODE_OP, 0b000, 0b0000000, rd, rs1, rs2)) == Some(
            INSTRUCTION::ADD(reg(rd), reg(rs1), reg(rs2)),
        ),
        decode_spec(r_type_word(OPCODE_OP, 0b000, 0b0100000, rd, rs1, rs2)) == Some(
            INSTRUCTION::SUB(reg(rd), reg(rs1), reg(rs2)),
        ),
        decode_spec(r_type_word(OPCODE_OP, 0b001, 0b0000000, rd, rs1, rs2)) == Some(
            INSTRUCTION::SLL(reg(rd), reg(rs1), reg(rs2)),
        ),
        decode_spec(r_type_word(OPCODE_OP, 0b010, 0b0000000, rd, rs1, rs2)) == Some(
            INSTRUCTION::SLT(reg(rd), reg(rs1), reg(rs2)),
        ),
        decode_spec(r_type_word(OPCODE_OP, 0b100, 0b0000000, rd, rs1, rs2)) == Some(
            INSTRUCTION::XOR(reg(rd), reg(rs1), reg(rs2)),
        ),
        decode_spec(r_type_word(OPCODE_OP, 0b101, 0b0000000, rd, rs1, rs2)) == Some(
            INSTRUCTION::SRL(reg(rd), reg(rs1), reg(rs2)),
        ),
        decode_spec(r_type_word(OPCODE_OP, 0b101, 0b0100000, rd, rs1, rs2)) == Some(
            INSTRUCTION::SRA(reg(rd), reg(rs1), reg(rs2)),
        ),
        decode_spec(r_type_word(OPCODE_OP, 0b110, 0b0000000, rd, rs1, rs2)) == Some(
            INSTRUCTION::OR(reg(rd), reg(rs1), reg(rs2)),
        ),
        decode_spec(r_type_word(OPCODE_OP, 0b111, 0b0000000, rd, rs1, rs2)) == Some(
            INSTRUCTION::AND(reg(rd), reg(rs1), reg(rs2)),
        ),
        decode_spec(r_type_word(OPCODE_OP, 0b000, 0b0000001, rd, rs1, rs2)) == Some(
            INSTRUCTION::MUL(reg(rd), reg(rs1), reg(rs2)),
        ),
        decode_spec(r_type_word(OPCODE_OP, 0b001, 0b0000001, rd, rs1, rs2)) == Some(
            INSTRUCTION::MULH(reg(rd), reg(rs1), reg(rs2)),
        ),
        decode_spec(r_type_word(OPCODE_OP, 0b010, 0b0000001, rd, rs1, rs2)) == Some(
            INSTRUCTION::MULHSU(reg(rd), reg(rs1), reg(rs2)),
        ),
        decode_spec(r_type_word(OPCODE_OP, 0b011, 0b0000001, rd, rs1, rs2)) == Some(
            INSTRUCTION::MULHU(reg(rd), reg(rs1), reg(rs2)),
        ),
        decode_spec(r_type_word(OPCODE_OP, 0b100, 0b0000001, rd, rs1, rs2)) == Some(
            INSTRUCTION::DIV(reg(rd), reg(rs1), reg(rs2)),
        ),
        decode_spec(r_type_word(OPCODE_OP, 0b101, 0b0000001, rd, rs1, rs2)) == Some(
            INSTRUCTION::DIVU(reg(rd), reg(rs1), reg(rs2)),
        ),
        decode_spec(r_type_word(OPCODE_OP, 0b110, 0b0000001, rd, rs1, rs2)) == Some(
            INSTRUCTION::REM(reg(rd), reg(rs1), reg(rs2)),
        ),
        decode_spec(r_type_word(OPCODE_OP, 0b111, 0b0000001, rd, rs1, rs2)) == Some(
            INSTRUCTION::REMU(reg(rd), reg(rs1), reg(rs2)),
        ),
{
    lemma_r_fields(OPCODE_OP, 0b000, 0b0000000, rd, rs1, rs2);
    lemma_r_fields(OPCODE_OP, 0b000, 0b0100000, rd, rs1, rs2);
    lemma_r_fields(OPCODE_OP, 0b001, 0b0000000, rd, rs1, rs2);
    lemma_r_fields(OPCODE_OP, 0b010, 0b0000000, rd, rs1, rs2);
    lemma_r_fields(OPCODE_OP, 0b100, 0b0000000, rd, rs1, rs2);
    lemma_r_fields(OPCODE_OP, 0b101, 0b0000000, rd, rs1, rs2);
    lemma_r_fields(OPCODE_OP, 0b101, 0b0100000, rd, rs1, rs2);
    lemma_r_fields(OPCODE_OP, 0b110, 0b0000000, rd, rs1, rs2);
    lemma_r_fields(OPCODE_OP, 0b111, 0b0000000, rd, rs1, rs2);
    lemma_r_fields(OPCODE_OP, 0b000, 1, rd, rs1, rs2);
    lemma_r_fields(OPCODE_OP, 0b001, 1, rd, rs1, rs2);
    lemma_r_fields(OPCODE_OP, 0b010, 1, rd, rs1, rs2);
    lemma_r_fields(OPCODE_OP, 0b011, 1, rd, rs1, rs2);
    lemma_r_fields(OPCODE_OP, 0b100, 1, rd, rs1, rs2);
    lemma_r_fields(OPCODE_OP, 0b101, 1, rd, rs1, rs2);
    lemma_r_fields(OPCODE_OP, 0b110, 1, rd, rs1, rs2);
    lemma_r_fields(OPCODE_OP, 0b111, 1, rd, rs1, rs2);
}

/// Decoding an encoded I-type instruction gives it back, with the
/// immediate's low 12 bits sign-extended: the OP-IMM arithmetic, the immediate
/// shifts (shift amount taken mod 32), LW, ECALL and MRET.
pub proof fn lemma_decode_i_type(rd: u32, rs1: u32, i: u32, shamt: u32)
    requires
        rd < 32,
        rs1 < 32,
    ensures
        decode_spec(i_type_word(OPCODE_OP_IMM, 0b000, rd, rs1, i)) == Some(
            INSTRUCTION::ADDI(reg(rd), reg(rs1), imm(sext12((i & 0xFFF) as int))),
        ),
        decode_spec(i_type_word(OPCODE_OP_IMM, 0b010, rd, rs1, i)) == Some(
            INSTRUCTION::SLTI(reg(rd), reg(rs1), imm(sext12((i & 0xFFF) as int))),
        ),
        decode_spec(i_type_word(OPCODE_OP_IMM, 0b100, rd, rs1, i)) == Some(
            INSTRUCTION::XORI(reg(rd), reg(rs1), imm(sext12((i & 0xFFF) as int))),
        ),
        decode_spec(i_type_word(OPCODE_OP_IMM, 0b110, rd, rs1, i)) == Some(
            INSTRUCTION::ORI(reg(rd), reg(rs1), imm(sext12((i & 0xFFF) as int))),
        ),
        decode_spec(i_type_word(OPCODE_OP_IMM, 0b111, rd, rs1, i)) == Some(
            INSTRUCTION::ANDI(reg(rd), reg(rs1), imm(sext12((i & 0xFFF) as int))),
        ),
        decode_spec(i_type_word(OPCODE_LOAD, 0b010, rd, rs1, i)) == Some(
            INSTRUCTION::LW(reg(rd), reg(rs1), imm(sext12((i & 0xFFF) as int))),
        ),
        decode_spec(i_type_word(OPCODE_OP_IMM, 0b001, rd, rs1, shamt & 0x1F)) == Some(
            INSTRUCTION::SLLI(reg(rd), reg(rs1), reg(shamt & 0x1F)),
        ),
        decode_spec(i_type_word(OPCODE_OP_IMM, 0b101, rd, rs1, shamt & 0x1F)) == Some(
            INSTRUCTION::SRLI(reg(rd), reg(rs1), reg(shamt & 0x1F)),
        ),
        decode_spec(i_type_word(OPCODE_OP_IMM, 0b101, rd, rs1, (shamt & 0x1F) | 0x400)) == Some(
            INSTRUCTION::SRAI(reg(rd), reg(rs1), reg(shamt & 0x1F)),
        ),
        decode_spec(i_type_word(OPCODE_SYSTEM, 0, 0, 0, 0)) == Some(INSTRUCTION::ECALL),
        decode_spec(i_type_word(OPCODE_SYSTEM, 0, 0, 0, 0x302)) == Some(INSTRUCTION::MRET),
{
    lemma_i_fields(OPCODE_OP_IMM, 0b000, rd, rs1, i);
    lemma_i_fields(OPCODE_OP_IMM, 0b010, rd, rs1, i);
    lemma_i_fields(OPCODE_OP_IMM, 0b100, rd, rs1, i);
    lemma_i_fields(OPCODE_OP_IMM, 0b110, rd, rs1, i);
    lemma_i_fields(OPCODE_OP_IMM, 0b111, rd, rs1, i);
    lemma_i_fields(OPCODE_LOAD, 0b010, rd, rs1, i);
    lemma_shift_imm(shamt);
    lemma_i_fields(OPCODE_OP_IMM, 0b001, rd, rs1, shamt & 0x1F);
    lemma_i_fields(OPCODE_OP_IMM, 0b101, rd, rs1, shamt & 0x1F);
    lemma_i_fields(OPCODE_OP_IMM, 0b101, rd, rs1, (shamt & 0x1F) | 0x400);
    lemma_i_fields(OPCODE_SYSTEM, 0, 0, 0, 0);
    lemma_i_fields(OPCODE_SYSTEM, 0, 0, 0, 0x302);
    assert(0u32 & 0xFFF == 0) by (bit_vector);
    assert(0x302u32 & 0xFFF == 0x302) by (bit_vector);
}

/// Decoding an encoded SW gives it back, with the offset's low 12 bits
/// sign-extended.
pub proof fn lemma_decode_store(rs1: u32, rs2: u32, i: u32)
    requires
        rs1 < 32,
        rs2 < 32,
    ensures
        decode_spec(s_type_word(OPCODE_STORE, 0b010, rs1, rs2, i)) == Some(
            INSTRUCTION::SW(reg(rs1), reg(rs2), imm(sext12((i & 0xFFF) as int))),
        ),
{
    lemma_s_fields(OPCODE_STORE, 0b010, rs1, rs2, i);
}

/// Decoding an encoded BNE gives it back; an even offset within +-4 KiB comes
/// back exactly.
pub proof fn lemma_decode_branch(rs1: u32, rs2: u32, offset: i32)
    requires
        rs1 < 32,
        rs2 < 32,
        -0x1000 <= offset <= 0xFFE,
        offset % 2 == 0,
    ensures
        decode_spec(b_type_word(OPCODE_BRANCH, 0b001, rs1, rs2, super::offset_bits(offset)))
            == Some(INSTRUCTION::BNE(reg(rs1), reg(rs2), imm(offset as int))),
{
    let u = super::offset_bits(offset);
    lemma_b_fields(OPCODE_BRANCH, 0b001, rs1, rs2, u);
    assert(u & 1 == u % 2) by (bit_vector);
    lemma_branch_offset_bits(u);
    assert(b_imm_of(b_type_word(OPCODE_BRANCH, 0b001, rs1, rs2, u)) == offset as int);
}

/// Decoding an encoded conditional branch gives back the branch its funct3
/// names (000 BEQ, 001 BNE, 100 BLT, 101 BGE, 110 BLTU, 111 BGEU), with its
/// registers and offset.
pub proof fn lemma_decode_branches(f3: u32, rs1: u32, rs2: u32, offset: i32)
    requires
        f3 == 0b000 || f3 == 0b001 || f3 == 0b100 || f3 == 0b101 || f3 == 0b110 || f3 == 0b111,
        rs1 < 32,
        rs2 < 32,
        -0x1000 <= offset <= 0xFFE,
        offset % 2 == 0,
    ensures
        ({
            let (a, b, i) = (reg(rs1), reg(rs2), imm(offset as int));
            decode_spec(b_type_word(OPCODE_BRANCH, f3, rs1, rs2, super::offset_bits(offset))) == Some(
                if f3 == 0b000 {
                    INSTRUCTION::BEQ(a, b, i)
                } else if f3 == 0b001 {
                    INSTRUCTION::BNE(a, b, i)
                } else if f3 == 0b100 {
                    INSTRUCTION::BLT(a, b, i)
                } else if f3 == 0b101 {
                    INSTRUCTION::BGE(a, b, i)
                } else if f3 == 0b110 {
                    INSTRUCTION::BLTU(a, b, i)
                } else {
                    INSTRUCTION::BGEU(a, b, i)
                },
            )
        }),
{
    let u = super::offset_bits(offset);
    lemma_b_fields(OPCODE_BRANCH, f3, rs1, rs2, u);
    assert(u & 1 == u % 2) by (bit_vector);
    lemma_branch_offset_bits(u);
    assert(b_imm_of(b_type_word(OPCODE_BRANCH, f3, rs1, rs2, u)) == offset as int);
}

} // verus!
