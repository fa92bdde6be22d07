//! Encoders for RV32IM instructions: the inverse of the decoder on the
//! fields each format carries.
pub mod roundtrip;

use vstd::prelude::*;

verus! {

/// An R-type word: opcode, rd, funct3, rs1, rs2, funct7, each field masked to
/// its width.
pub open spec fn r_type_word(opcode: u32, funct3: u32, funct7: u32, rd: u32, rs1: u32, rs2: u32) -> u32 {
    (opcode & 0x7F) | ((rd & 0x1F) << 7) | ((funct3 & 0x7) << 12) | ((rs1 & 0x1F) << 15) | ((rs2
        & 0x1F) << 20) | ((funct7 & 0x7F) << 25)
}

/// An I-type word: opcode, rd, funct3, rs1 and the low 12 bits of the
/// immediate.
pub open spec fn i_type_word(opcode: u32, funct3: u32, rd: u32, rs1: u32, imm: u32) -> u32 {
    (opcode & 0x7F) | ((rd & 0x1F) << 7) | ((funct3 & 0x7) << 12) | ((rs1 & 0x1F) << 15) | ((imm
        & 0xFFF) << 20)
}

/// An S-type word: immediate bits 4..0 in bits 11..7, bits 11..5 in bits
/// 31..25.
pub open spec fn s_type_word(opcode: u32, funct3: u32, rs1: u32, rs2: u32, imm: u32) -> u32 {
    (opcode & 0x7F) | ((imm & 0x1F) << 7) | ((funct3 & 0x7) << 12) | ((rs1 & 0x1F) << 15) | ((rs2
        & 0x1F) << 20) | (((imm >> 5) & 0x7F) << 25)
}

/// A B-type word: offset bit 11 in bit 7, bits 4..1 in bits 11..8, bits 10..5
/// in bits 30..25, bit 12 in bit 31.
pub open spec fn b_type_word(opcode: u32, funct3: u32, rs1: u32, rs2: u32, imm: u32) -> u32 {
    (opcode & 0x7F) | (((imm >> 11) & 0x1) << 7) | (((imm >> 1) & 0xF) << 8) | ((funct3 & 0x7)
        << 12) | ((rs1 & 0x1F) << 15) | ((rs2 & 0x1F) << 20) | (((imm >> 5) & 0x3F) << 25) | (((imm
        >> 12) & 0x1) << 31)
}

pub const OPCODE_OP: u32 = 0b0110011;
pub const OPCODE_OP_IMM: u32 = 0b0010011;
pub const OPCODE_LOAD: u32 = 0b0000011;
pub const OPCODE_STORE: u32 = 0b0100011;
pub const OPCODE_BRANCH: u32 = 0b1100011;
pub const OPCODE_SYSTEM: u32 = 0b1110011;

// Generic instruction builders
pub fn assemble_r_type(opcode: u32, funct3: u32, funct7: u32, rd: u32, rs1: u32, rs2: u32) -> (r: u32)
    ensures
        r == r_type_word(opcode, funct3, funct7, rd, rs1, rs2),
{
    (opcode & 0x7F) | ((rd & 0x1F) << 7) | ((funct3 & 0x7) << 12) | ((rs1 & 0x1F) << 15) | ((rs2
        & 0x1F) << 20) | ((funct7 & 0x7F) << 25)
}

pub fn assemble_i_type(opcode: u32, funct3: u32, rd: u32, rs1: u32, imm: u32) -> (r: u32)
    ensures
        r == i_type_word(opcode, funct3, rd, rs1, imm),
{
    (opcode & 0x7F) | ((rd & 0x1F) << 7) | ((funct3 & 0x7) << 12) | ((rs1 & 0x1F) << 15) | ((imm
        & 0xFFF) << 20)
}

pub fn assemble_s_type(opcode: u32, funct3: u32, rs1: u32, rs2: u32, imm: u32) -> (r: u32)
    ensures
        r == s_type_word(opcode, funct3, rs1, rs2, imm),
{
    let imm4_0 = imm & 0x1F;
    let imm11_5 = (imm >> 5) & 0x7F;
    (opcode & 0x7F) | (imm4_0 << 7) | ((funct3 & 0x7) << 12) | ((rs1 & 0x1F) << 15) | ((rs2
        & 0x1F) << 20) | (imm11_5 << 25)
}

pub fn assemble_b_type(opcode: u32, funct3: u32, rs1: u32, rs2: u32, imm: u32) -> (r: u32)
    ensures
        r == b_type_word(opcode, funct3, rs1, rs2, imm),
{
    let imm12 = (imm >> 12) & 0x1;
    let imm10_5 = (imm >> 5) & 0x3F;
    let imm4_1 = (imm >> 1) & 0xF;
    let imm11 = (imm >> 11) & 0x1;
    (opcode & 0x7F) | (imm11 << 7) | (imm4_1 << 8) | ((funct3 & 0x7) << 12) | ((rs1 & 0x1F) << 15)
        | ((rs2 & 0x1F) << 20) | (imm10_5 << 25) | (imm12 << 31)
}

/// The two's-complement bits of a signed offset.
pub open spec fn offset_bits(imm: i32) -> u32 {
    if imm >= 0 {
        imm as u32
    } else {
        (imm + 0x1_0000_0000) as u32
    }
}

/// BNE rs1, rs2, imm (a byte offset from the branch).
pub fn assemble_bne(rs1: u32, rs2: u32, imm: i32) -> (r: u32)
    ensures
        r == b_type_word(OPCODE_BRANCH, 0b001, rs1, rs2, offset_bits(imm)),
{
    let bits = if imm >= 0 {
        imm as u32
    } else {
        ((imm as i64) + 0x1_0000_0000) as u32
    };
    assemble_b_type(0b1100011, 0b001, rs1, rs2, bits)
}

pub fn assemble_addi(rd: u32, rs1: u32, imm: u32) -> (r: u32)
    ensures
        r == i_type_word(OPCODE_OP_IMM, 0b000, rd, rs1, imm),
{
    assemble_i_type(0b0010011, 0b000, rd, rs1, imm)
}

pub fn assemble_slti(rd: u32, rs1: u32, imm: u32) -> (r: u32)
    ensures
        r == i_type_word(OPCODE_OP_IMM, 0b010, rd, rs1, imm),
{
    assemble_i_type(0b0010011, 0b010, rd, rs1, imm)
}

pub fn assemble_xori(rd: u32, rs1: u32, imm: u32) -> (r: u32)
    ensures
        r == i_type_word(OPCODE_OP_IMM, 0b100, rd, rs1, imm),
{
    assemble_i_type(0b0010011, 0b100, rd, rs1, imm)
}

pub fn assemble_ori(rd: u32, rs1: u32, imm: u32) -> (r: u32)
    ensures
        r == i_type_word(OPCODE_OP_IMM, 0b110, rd, rs1, imm),
{
    assemble_i_type(0b0010011, 0b110, rd, rs1, imm)
}

pub fn assemble_andi(rd: u32, rs1: u32, imm: u32) -> (r: u32)
    ensures
        r == i_type_word(OPCODE_OP_IMM, 0b111, rd, rs1, imm),
{
    assemble_i_type(0b0010011, 0b111, rd, rs1, imm)
}

// I-type shifts: the top seven bits of the immediate act as a funct7.
pub fn assemble_slli(rd: u32, rs1: u32, shamt: u32) -> (r: u32)
    ensures
        r == i_type_word(OPCODE_OP_IMM, 0b001, rd, rs1, shamt & 0x1F),
{
    assemble_i_type(0b0010011, 0b001, rd, rs1, shamt & 0x1F)
}

pub fn assemble_srli(rd: u32, rs1: u32, shamt: u32) -> (r: u32)
    ensures
        r == i_type_word(OPCODE_OP_IMM, 0b101, rd, rs1, shamt & 0x1F),
{
    assemble_i_type(0b0010011, 0b101, rd, rs1, shamt & 0x1F)
}

/// SRAI sets bit 30 of the instruction (0x400 in the immediate field).
pub fn assemble_srai(rd: u32, rs1: u32, shamt: u32) -> (r: u32)
    ensures
        r == i_type_word(OPCODE_OP_IMM, 0b101, rd, rs1, (shamt & 0x1F) | 0x400),
{
    assemble_i_type(0b0010011, 0b101, rd, rs1, (shamt & 0x1F) | 0x400)
}

pub fn assemble_add(rd: u32, rs1: u32, rs2: u32) -> (r: u32)
    ensures
        r == r_type_word(OPCODE_OP, 0b000, 0b0000000, rd, rs1, rs2),
{
    assemble_r_type(0b0110011, 0b000, 0b0000000, rd, rs1, rs2)
}

pub fn assemble_sub(rd: u32, rs1: u32, rs2: u32) -> (r: u32)
    ensures
        r == r_type_word(OPCODE_OP, 0b000, 0b0100000, rd, rs1, rs2),
{
    assemble_r_type(0b0110011, 0b000, 0b0100000, rd, rs1, rs2)
}

pub fn assemble_sll(rd: u32, rs1: u32, rs2: u32) -> (r: u32)
    ensures
        r == r_type_word(OPCODE_OP, 0b001, 0b0000000, rd, rs1, rs2),
{
    assemble_r_type(0b0110011, 0b001, 0b0000000, rd, rs1, rs2)
}

pub fn assemble_slt(rd: u32, rs1: u32, rs2: u32) -> (r: u32)
    ensures
        r == r_type_word(OPCODE_OP, 0b010, 0b0000000, rd, rs1, rs2),
{
    assemble_r_type(0b0110011, 0b010, 0b0000000, rd, rs1, rs2)
}

pub fn assemble_xor(rd: u32, rs1: u32, rs2: u32) -> (r: u32)
    ensures
        r == r_type_word(OPCODE_OP, 0b100, 0b0000000, rd, rs1, rs2),
{
    assemble_r_type(0b0110011, 0b100, 0b0000000, rd, rs1, rs2)
}

pub fn assemble_srl(rd: u32, rs1: u32, rs2: u32) -> (r: u32)
    ensures
        r == r_type_word(OPCODE_OP, 0b101, 0b0000000, rd, rs1, rs2),
{
    assemble_r_type(0b0110011, 0b101, 0b0000000, rd, rs1, rs2)
}

pub fn assemble_sra(rd: u32, rs1: u32, rs2: u32) -> (r: u32)
    ensures
        r == r_type_word(OPCODE_OP, 0b101, 0b0100000, rd, rs1, rs2),
{
    assemble_r_type(0b0110011, 0b101, 0b0100000, rd, rs1, rs2)
}

pub fn assemble_or(rd: u32, rs1: u32, rs2: u32) -> (r: u32)
    ensures
        r == r_type_word(OPCODE_OP, 0b110, 0b0000000, rd, rs1, rs2),
{
    assemble_r_type(0b0110011, 0b110, 0b0000000, rd, rs1, rs2)
}

pub fn assemble_and(rd: u32, rs1: u32, rs2: u32) -> (r: u32)
    ensures
        r == r_type_word(OPCODE_OP, 0b111, 0b0000000, rd, rs1, rs2),
{
    assemble_r_type(0b0110011, 0b111, 0b0000000, rd, rs1, rs2)
}

pub fn assemble_mul(rd: u32, rs1: u32, rs2: u32) -> (r: u32)
    ensures
        r == r_type_word(OPCODE_OP, 0b000, 0b0000001, rd, rs1, rs2),
{
    assemble_r_type(0b0110011, 0b000, 0b0000001, rd, rs1, rs2)
}

pub fn assemble_mulh(rd: u32, rs1: u32, rs2: u32) -> (r: u32)
    ensures
        r == r_type_word(OPCODE_OP, 0b001, 0b0000001, rd, rs1, rs2),
{
    assemble_r_type(0b0110011, 0b001, 0b0000001, rd, rs1, rs2)
}

pub fn assemble_mulhsu(rd: u32, rs1: u32, rs2: u32) -> (r: u32)
    ensures
        r == r_type_word(OPCODE_OP, 0b010, 0b0000001, rd, rs1, rs2),
{
    assemble_r_type(0b0110011, 0b010, 0b0000001, rd, rs1, rs2)
}

pub fn assemble_mulhu(rd: u32, rs1: u32, rs2: u32) -> (r: u32)
    ensures
        r == r_type_word(OPCODE_OP, 0b011, 0b0000001, rd, rs1, rs2),
{
    assemble_r_type(0b0110011, 0b011, 0b0000001, rd, rs1, rs2)
}

pub fn assemble_div(rd: u32, rs1: u32, rs2: u32) -> (r: u32)
    ensures
        r == r_type_word(OPCODE_OP, 0b100, 0b0000001, rd, rs1, rs2),
{
    assemble_r_type(0b0110011, 0b100, 0b0000001, rd, rs1, rs2)
}

pub fn assemble_divu(rd: u32, rs1: u32, rs2: u32) -> (r: u32)
    ensures
        r == r_type_word(OPCODE_OP, 0b101, 0b0000001, rd, rs1, rs2),
{
    assemble_r_type(0b0110011, 0b101, 0b0000001, rd, rs1, rs2)
}

pub fn assemble_rem(rd: u32, rs1: u32, rs2: u32) -> (r: u32)
    ensures
        r == r_type_word(OPCODE_OP, 0b110, 0b0000001, rd, rs1, rs2),
{
    assemble_r_type(0b0110011, 0b110, 0b0000001, rd, rs1, rs2)
}

pub fn assemble_remu(rd: u32, rs1: u32, rs2: u32) -> (r: u32)
    ensures
        r == r_type_word(OPCODE_OP, 0b111, 0b0000001, rd, rs1, rs2),
{
    assemble_r_type(0b0110011, 0b111, 0b0000001, rd, rs1, rs2)
}

/// LW rd, imm(rs1)
pub fn assemble_lw(rd: u32, rs1: u32, imm: u32) -> (r: u32)
    ensures
        r == i_type_word(OPCODE_LOAD, 0b010, rd, rs1, imm),
{
    assemble_i_type(0b0000011, 0b010, rd, rs1, imm)
}

/// SW rs2, imm(rs1): stores rs2 at rs1 + imm.
pub fn assemble_sw(rs1: u32, rs2: u32, imm: u32) -> (r: u32)
    ensures
        r == s_type_word(OPCODE_STORE, 0b010, rs1, rs2, imm),
{
    assemble_s_type(0b0100011, 0b010, rs1, rs2, imm)
}

/// ECALL
pub fn assemble_ecall() -> (r: u32)
    ensures
        r == i_type_word(OPCODE_SYSTEM, 0, 0, 0, 0),
{
    assemble_i_type(0b1110011, 0, 0, 0, 0)
}

/// MRET
pub fn assemble_mret() -> (r: u32)
    ensures
        r == i_type_word(OPCODE_SYSTEM, 0, 0, 0, 0x302),
{
    assemble_i_type(0b1110011, 0, 0, 0, 0x302)
}

} // verus!
