//! Architectural types: addresses, privilege modes, raw instruction words and
//! the decoded instruction set.
use vstd::prelude::*;
use crate::bits::lemma_and_le;

verus! {

/// The privilege level the hart runs at. Its architectural encoding (User 0,
/// Supervisor 1, Machine 3) is `bits()`; an `as` cast gives the declaration
/// index instead.
#[derive(Debug, Clone, Copy, PartialEq, Eq, Structural)]
pub enum PrivilegeMode {
    User,
    Supervisor,
    Machine,
}

/// Two-bit encoding of a privilege mode, as stored in `mstatus.MPP`.
pub open spec fn mode_bits(m: PrivilegeMode) -> u32 {
    match m {
        PrivilegeMode::User => 0,
        PrivilegeMode::Supervisor => 1,
        PrivilegeMode::Machine => 3,
    }
}

/// The privilege mode that an `MPP` value selects. The reserved encoding 2
/// selects the least privileged mode.
pub open spec fn mode_of_bits(b: u32) -> PrivilegeMode {
    if b == 3 {
        PrivilegeMode::Machine
    } else if b == 1 {
        PrivilegeMode::Supervisor
    } else {
        PrivilegeMode::User
    }
}

impl PrivilegeMode {
    /// The `MPP` encoding of this mode: User 0, Supervisor 1, Machine 3.
    pub fn bits(self) -> (r: u32)
        ensures
            r == mode_bits(self),
    {
        match self {
            PrivilegeMode::User => 0,
            PrivilegeMode::Supervisor => 1,
            PrivilegeMode::Machine => 3,
        }
    }

    /// The mode an `MPP` field value stands for.
    pub fn from_bits(b: u32) -> (r: PrivilegeMode)
        ensures
            r == mode_of_bits(b),
    {
        if b == 3 {
            PrivilegeMode::Machine
        } else if b == 1 {
            PrivilegeMode::Supervisor
        } else {
            PrivilegeMode::User
        }
    }
}

/// Decoding a mode's encoding gives the mode back.
pub proof fn lemma_mode_bits_roundtrip(m: PrivilegeMode)
    ensures
        mode_of_bits(mode_bits(m)) == m,
        mode_bits(m) <= 3,
{
}

/// A 32-bit physical or virtual address.
#[derive(Debug, Clone, Copy)]
pub struct Address(pub u32);

impl Address {
    /// The address `n` bytes further on, wrapping around the 32-bit space.
    pub fn offset(self, n: u32) -> (r: Address)
        ensures
            r.0 == wrap_add(self.0, n),
    {
        Address(self.0.wrapping_add(n))
    }
}

/// Address arithmetic that must not leave the 32-bit space.
impl std::ops::Add for Address {
    type Output = Address;

    fn add(self, rhs: Address) -> (r: Address) {
        Address(self.0 + rhs.0)
    }
}

impl vstd::std_specs::ops::AddSpecImpl for Address {
    open spec fn obeys_add_spec() -> bool {
        true
    }

    /// The sum fits in 32 bits.
    open spec fn add_req(self, rhs: Address) -> bool {
        self.0 + rhs.0 <= u32::MAX
    }

    open spec fn add_spec(self, rhs: Address) -> Address {
        Address((self.0 + rhs.0) as u32)
    }
}

/// 32-bit wrapping addition.
pub open spec fn wrap_add(a: u32, b: u32) -> u32 {
    if a as int + b as int >= 0x1_0000_0000 {
        (a as int + b as int - 0x1_0000_0000) as u32
    } else {
        (a as int + b as int) as u32
    }
}

/// 32-bit wrapping subtraction.
pub open spec fn wrap_sub(a: u32, b: u32) -> u32 {
    if a >= b {
        (a - b) as u32
    } else {
        (a as int - b as int + 0x1_0000_0000) as u32
    }
}

/// Index of one of the 32 integer registers.
#[derive(Debug)]
pub struct RegisterIndex(pub u8);

impl RegisterIndex {
    /// A register index; there are only 32 registers.
    pub fn new(x: u8) -> (r: Self)
        requires
            x <= 31,
        ensures
            r.0 == x,
    {
        Self(x)
    }
}

/// Sign extension of a 12-bit field.
pub open spec fn sext12(code: int) -> int {
    if code >= 0x800 {
        code - 0x1000
    } else {
        code
    }
}

/// A sign-extended immediate operand.
#[derive(Debug)]
pub struct Immediate(pub i32);

impl Immediate {
    /// The immediate that a 12-bit field encodes, sign-extended from bit 11.
    pub fn new(code: u16) -> (r: Self)
        requires
            code <= 0xFFF,
        ensures
            r.0 as int == sext12(code as int),
    {
        if code >= 0x800 {
            Self((code as i32) - 0x1000)
        } else {
            Self(code as i32)
        }
    }
}

// Fields of an instruction word.
pub open spec fn opcode_of(w: u32) -> u32 {
    w & 0x7F
}

pub open spec fn funct3_of(w: u32) -> u32 {
    (w >> 12) & 0x7
}

pub open spec fn funct7_of(w: u32) -> u32 {
    (w >> 25) & 0x7F
}

pub open spec fn rd_of(w: u32) -> u32 {
    (w >> 7) & 0x1F
}

pub open spec fn rs1_of(w: u32) -> u32 {
    (w >> 15) & 0x1F
}

pub open spec fn rs2_of(w: u32) -> u32 {
    (w >> 20) & 0x1F
}

pub open spec fn csr_of(w: u32) -> u32 {
    (w >> 20) & 0xFFF
}

/// The I-type immediate: bits 31..20, sign-extended.
pub open spec fn i_imm_of(w: u32) -> int {
    sext12(((w >> 20) & 0xFFF) as int)
}

/// The S-type immediate: bits 31..25 and 11..7, sign-extended.
pub open spec fn s_imm_of(w: u32) -> int {
    sext12(((w >> 25) & 0x7F) as int * 32 + ((w >> 7) & 0x1F) as int)
}

/// The B-type branch offset: bits 12, 11, 10..5 and 4..1, sign-extended from bit 12.
pub open spec fn b_imm_of(w: u32) -> int {
    let v = ((w >> 31) & 0x1) as int * 0x1000 + ((w >> 7) & 0x1) as int * 0x800 + ((w >> 25)
        & 0x3F) as int * 0x20 + ((w >> 8) & 0xF) as int * 0x2;
    if (w >> 31) & 0x1 == 1 {
        v - 0x2000
    } else {
        v
    }
}

/// The U-type immediate: the upper 20 bits, lower 12 bits zero.
pub open spec fn u_imm_of(w: u32) -> u32 {
    w & 0xFFFF_F000
}

/// The J-type jump offset (bits 20, 19..12, 11, 10..1), sign-extended from bit
/// 20 and taken modulo 2^32.
pub open spec fn j_imm_of(w: u32) -> u32 {
    let v = ((w >> 31) & 0x1) as int * 0x10_0000 + ((w >> 12) & 0xFF) as int * 0x1000 + ((w
        >> 20) & 0x1) as int * 0x800 + ((w >> 21) & 0x3FF) as int * 0x2;
    if (w >> 31) & 0x1 == 1 {
        (v + 0xFFE0_0000) as u32
    } else {
        v as u32
    }
}

/// An undecoded 32-bit instruction word.
#[derive(Debug)]
pub struct RawInstruction(pub u32);

impl RawInstruction {
    pub fn opcode(&self) -> (r: Opcode)
        ensures
            r.0 as u32 == opcode_of(self.0),
    {
        let code = self.0 & 0x7F;
        proof {
            lemma_and_le(self.0, 0x7F);
        }
        Opcode::new(code as u8)
    }

    pub fn funct3(&self) -> (r: Funct3)
        ensures
            r.0 as u32 == funct3_of(self.0),
    {
        let code = (self.0 >> 12) & 0x7;
        proof {
            lemma_and_le(self.0 >> 12, 0x7);
        }
        Funct3::new(code as u8)
    }

    pub fn funct7(&self) -> (r: Funct7)
        ensures
            r.0 as u32 == funct7_of(self.0),
    {
        let code = (self.0 >> 25) & 0x7F;
        proof {
            lemma_and_le(self.0 >> 25, 0x7F);
        }
        Funct7::new(code as u8)
    }

    pub fn rd(&self) -> (r: RegisterIndex)
        ensures
            r.0 as u32 == rd_of(self.0),
            r.0 < 32,
    {
        let code = (self.0 >> 7) & 0x1F;
        proof {
            lemma_and_le(self.0 >> 7, 0x1F);
        }
        RegisterIndex::new(code as u8)
    }

    pub fn rs1(&self) -> (r: RegisterIndex)
        ensures
            r.0 as u32 == rs1_of(self.0),
            r.0 < 32,
    {
        let code = (self.0 >> 15) & 0x1F;
        proof {
            lemma_and_le(self.0 >> 15, 0x1F);
        }
        RegisterIndex::new(code as u8)
    }

    pub fn rs2(&self) -> (r: RegisterIndex)
        ensures
            r.0 as u32 == rs2_of(self.0),
            r.0 < 32,
    {
        let code = (self.0 >> 20) & 0x1F;
        proof {
            lemma_and_le(self.0 >> 20, 0x1F);
        }
        RegisterIndex::new(code as u8)
    }

    pub fn csr(&self) -> (r: u16)
        ensures
            r as u32 == csr_of(self.0),
            r < 4096,
    {
        let code = (self.0 >> 20) & 0xFFF;
        proof {
            lemma_and_le(self.0 >> 20, 0xFFF);
        }
        code as u16
    }

    pub fn i_imm(&self) -> (r: Immediate)
        ensures
            r.0 as int == i_imm_of(self.0),
    {
        let code = (self.0 >> 20) & 0xFFF;
        proof {
            lemma_and_le(self.0 >> 20, 0xFFF);
        }
        Immediate::new(code as u16)
    }

    pub fn s_imm(&self) -> (r: Immediate)
        ensures
            r.0 as int == s_imm_of(self.0),
    {
        let code_1 = (self.0 >> 7) & 0x1F;
        let code_2 = (self.0 >> 25) & 0x7F;
        proof {
            lemma_and_le(self.0 >> 7, 0x1F);
            lemma_and_le(self.0 >> 25, 0x7F);
        }
        let code = code_2 * 32 + code_1;
        Immediate::new(code as u16)
    }

    pub fn b_imm(&self) -> (r: Immediate)
        ensures
            r.0 as int == b_imm_of(self.0),
    {
        let bit_12 = (self.0 >> 31) & 0x1;
        let bit_11 = (self.0 >> 7) & 0x1;
        let bits_10_5 = (self.0 >> 25) & 0x3F;
        let bits_4_1 = (self.0 >> 8) & 0xF;
        proof {
            lemma_and_le(self.0 >> 31, 0x1);
            lemma_and_le(self.0 >> 7, 0x1);
            lemma_and_le(self.0 >> 25, 0x3F);
            lemma_and_le(self.0 >> 8, 0xF);
        }
        let imm = bit_12 * 0x1000 + bit_11 * 0x800 + bits_10_5 * 0x20 + bits_4_1 * 0x2;
        if bit_12 == 1 {
            Immediate((imm as i32) - 0x2000)
        } else {
            Immediate(imm as i32)
        }
    }

    pub fn u_imm(&self) -> (r: u32)
        ensures
            r == u_imm_of(self.0),
    {
        self.0 & 0xFFFF_F000
    }

    pub fn j_imm(&self) -> (r: u32)
        ensures
            r == j_imm_of(self.0),
    {
        let bit_20 = (self.0 >> 31) & 0x1;
        let bits_19_12 = (self.0 >> 12) & 0xFF;
        let bit_11 = (self.0 >> 20) & 0x1;
        let bits_10_1 = (self.0 >> 21) & 0x3FF;
        proof {
            lemma_and_le(self.0 >> 31, 0x1);
            lemma_and_le(self.0 >> 12, 0xFF);
            lemma_and_le(self.0 >> 20, 0x1);
            lemma_and_le(self.0 >> 21, 0x3FF);
        }
        let imm = bit_20 * 0x10_0000 + bits_19_12 * 0x1000 + bit_11 * 0x800 + bits_10_1 * 0x2;
        if bit_20 == 1 {
            imm + 0xFFE0_0000
        } else {
            imm
        }
    }
}

/// The 7-bit major opcode.
#[derive(Debug)]
pub struct Opcode(pub u8);

impl Opcode {
    pub fn new(code: u8) -> (r: Self)
        requires
            code <= 127,
        ensures
            r.0 == code,
    {
        Self(code)
    }
}

/// The 3-bit minor opcode.
#[derive(Debug)]
pub struct Funct3(pub u8);

impl Funct3 {
    pub fn new(code: u8) -> (r: Self)
        requires
            code <= 7,
        ensures
            r.0 == code,
    {
        Self(code)
    }
}

/// The 7-bit function field of R-type instructions.
#[derive(Debug)]
pub struct Funct7(pub u8);

impl Funct7 {
    pub fn new(code: u8) -> (r: Self)
        requires
            code <= 127,
        ensures
            r.0 == code,
    {
        Funct7(code)
    }
}

pub type Destination = RegisterIndex;

pub type Source1 = RegisterIndex;

pub type Source2 = RegisterIndex;

/// A decoded RV32IM instruction (plus the machine-mode CSR and trap instructions).
#[derive(Debug)]
pub enum INSTRUCTION {
    ADDI(Destination, Source1, Immediate),
    XORI(Destination, Source1, Immediate),
    ANDI(Destination, Source1, Immediate),
    ORI(Destination, Source1, Immediate),
    ADD(Destination, Source1, Source2),
    SUB(Destination, Source1, Source2),
    AND(Destination, Source1, Source2),
    OR(Destination, Source1, Source2),
    XOR(Destination, Source1, Source2),
    SLLI(Destination, Source1, Source2),
    SRLI(Destination, Source1, Source2),
    SRAI(Destination, Source1, Source2),
    SLL(Destination, Source1, Source2),
    SRL(Destination, Source1, Source2),
    SRA(Destination, Source1, Source2),
    SLT(Destination, Source1, Source2),
    SLTU(Destination, Source1, Source2),
    SLTI(Destination, Source1, Immediate),
    SLTIU(Destination, Source1, Immediate),
    LB(Destination, Source1, Immediate),
    LH(Destination, Source1, Immediate),
    LW(Destination, Source1, Immediate),
    LBU(Destination, Source1, Immediate),
    LHU(Destination, Source1, Immediate),
    SB(Source1, Source2, Immediate),
    SH(Source1, Source2, Immediate),
    SW(Source1, Source2, Immediate),
    BEQ(Source1, Source2, Immediate),
    BNE(Source1, Source2, Immediate),
    BLT(Source1, Source2, Immediate),
    BGE(Source1, Source2, Immediate),
    BLTU(Source1, Source2, Immediate),
    BGEU(Source1, Source2, Immediate),
    JAL(Destination, u32),
    JALR(Destination, Source1, Immediate),
    LUI(Destination, u32),
    AUIPC(Destination, u32),
    ECALL,
    MRET,
    MUL(Destination, Source1, Source2),
    MULH(Destination, Source1, Source2),
    MULHSU(Destination, Source1, Source2),
    MULHU(Destination, Source1, Source2),
    DIV(Destination, Source1, Source2),
    DIVU(Destination, Source1, Source2),
    REM(Destination, Source1, Source2),
    REMU(Destination, Source1, Source2),
    CSRRW(Destination, Source1, u16),
    CSRRS(Destination, Source1, u16),
    CSRRC(Destination, Source1, u16),
    CSRRWI(Destination, u8, u16),
    CSRRSI(Destination, u8, u16),
    CSRRCI(Destination, u8, u16),
}

/// Interrupt sources the interrupt controller knows.
#[derive(Debug, Clone, Copy, PartialEq, Eq, Structural)]
pub enum INTERRUPT {
    TIMER,
    UART,
    SOFTWARE,
    KEYBOARD,
}

} // verus!

verus! {

/// A condition under which the machine cannot go on: an access to an address
/// no device covers, an access to an offset the device there does not decode,
/// or an instruction word that does not decode.
#[derive(Debug, Clone, Copy, PartialEq, Eq, Structural)]
pub enum MachineFault {
    Unmapped(u32),
    BadRegister(u32),
    UnknownInstruction(u32),
}

} // verus!
