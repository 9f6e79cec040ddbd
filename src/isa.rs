//! The instruction set: opcode tags, special-register names, the decoded
//! instruction record and the architecture's named integer limits.

use vstd::prelude::*;

verus! {

/// Largest unsigned nybble (4 bits).
pub const MAX_NYBB: u8 = 15;
/// Largest unsigned byte (8 bits).
pub const MAX_BYTE: u8 = 255;
/// Largest unsigned wyde (16 bits).
pub const MAX_WYDE: u16 = 65535;
/// Largest unsigned tetrabyte (32 bits).
pub const MAX_TTRA: u32 = 4294967295;
/// Largest unsigned octabyte (64 bits).
pub const MAX_OCTA: u64 = 18446744073709551615;

/// Limits of the signed two's-complement nybble, byte, wyde, tetrabyte and octabyte.
pub const MAX_S_NYBB: i8 = 7;
pub const MAX_S_BYTE: i8 = 127;
pub const MAX_S_WYDE: i16 = 32767;
pub const MAX_S_TTRA: i32 = 2147483647;
pub const MAX_S_OCTA: i64 = 9223372036854775807;

pub const MIN_S_NYBB: i8 = -8;
pub const MIN_S_BYTE: i8 = -128;
pub const MIN_S_WYDE: i16 = -32768;
pub const MIN_S_TTRA: i32 = -2147483648;
pub const MIN_S_OCTA: i64 = -9223372036854775808;

/// Names of the special-purpose registers, in register-number order.
#[allow(non_camel_case_types)]
#[derive(Debug, Clone, Copy, PartialEq, Eq, Structural)]
pub enum SpecialRegisterName {
    /// arithmetic status register
    rA,
    rB,
    rC,
    rD,
    rE,
    rF,
    rG,
    rH,
    rI,
    rJ,
    rK,
    rL,
    rM,
    rN,
    rO,
    rP,
    rQ,
    rR,
    rS,
    rT,
    rU,
    rV,
    rW,
    rX,
    rY,
    rZ,
    rBB,
    rTT,
    rWW,
    rXX,
    rYY,
    rZZ,
}

impl SpecialRegisterName {
    /// The register number that this name stands for.
    pub open spec fn spec_number(self) -> nat {
        match self {
            SpecialRegisterName::rA => 0,
            SpecialRegisterName::rB => 1,
            SpecialRegisterName::rC => 2,
            SpecialRegisterName::rD => 3,
            SpecialRegisterName::rE => 4,
            SpecialRegisterName::rF => 5,
            SpecialRegisterName::rG => 6,
            SpecialRegisterName::rH => 7,
            SpecialRegisterName::rI => 8,
            SpecialRegisterName::rJ => 9,
            SpecialRegisterName::rK => 10,
            SpecialRegisterName::rL => 11,
            SpecialRegisterName::rM => 12,
            SpecialRegisterName::rN => 13,
            SpecialRegisterName::rO => 14,
            SpecialRegisterName::rP => 15,
            SpecialRegisterName::rQ => 16,
            SpecialRegisterName::rR => 17,
            SpecialRegisterName::rS => 18,
            SpecialRegisterName::rT => 19,
            SpecialRegisterName::rU => 20,
            SpecialRegisterName::rV => 21,
            SpecialRegisterName::rW => 22,
            SpecialRegisterName::rX => 23,
            SpecialRegisterName::rY => 24,
            SpecialRegisterName::rZ => 25,
            SpecialRegisterName::rBB => 26,
            SpecialRegisterName::rTT => 27,
            SpecialRegisterName::rWW => 28,
            SpecialRegisterName::rXX => 29,
            SpecialRegisterName::rYY => 30,
            SpecialRegisterName::rZZ => 31,
        }
    }

    /// The register number, an index into the special-purpose register file.
    pub fn number(self) -> (r: usize)
        ensures
            r == self.spec_number(),
            r < 32,
    {
        match self {
            SpecialRegisterName::rA => 0,
            SpecialRegisterName::rB => 1,
            SpecialRegisterName::rC => 2,
            SpecialRegisterName::rD => 3,
            SpecialRegisterName::rE => 4,
            SpecialRegisterName::rF => 5,
            SpecialRegisterName::rG => 6,
            SpecialRegisterName::rH => 7,
            SpecialRegisterName::rI => 8,
            SpecialRegisterName::rJ => 9,
            SpecialRegisterName::rK => 10,
            SpecialRegisterName::rL => 11,
            SpecialRegisterName::rM => 12,
            SpecialRegisterName::rN => 13,
            SpecialRegisterName::rO => 14,
            SpecialRegisterName::rP => 15,
            SpecialRegisterName::rQ => 16,
            SpecialRegisterName::rR => 17,
            SpecialRegisterName::rS => 18,
            SpecialRegisterName::rT => 19,
            SpecialRegisterName::rU => 20,
            SpecialRegisterName::rV => 21,
            SpecialRegisterName::rW => 22,
            SpecialRegisterName::rX => 23,
            SpecialRegisterName::rY => 24,
            SpecialRegisterName::rZ => 25,
            SpecialRegisterName::rBB => 26,
            SpecialRegisterName::rTT => 27,
            SpecialRegisterName::rWW => 28,
            SpecialRegisterName::rXX => 29,
            SpecialRegisterName::rYY => 30,
            SpecialRegisterName::rZZ => 31,
        }
    }
}

/// Opcode tags. Each stands for one byte of the opcode space; only some of
/// them have a handler in the execution engine.
#[allow(non_camel_case_types)]
#[derive(Debug, Clone, Copy, PartialEq, Eq, Structural)]
pub enum OpCode {
    TRAP,
    FCMP,
    FUN,
    FEQL,
    FADD,
    FIX,
    FSUB,
    FIXU,
    FLOT,
    FLOT_I,
    FLOTU,
    FLOTU_I,
    SFLOT,
    SFLOT_I,
    SFLOTU,
    SFLOTU_I,
    FMUL,
    FCMPE,
    FUNE,
    FEQLE,
    FDIV,
    FSQRT,
    FREM,
    FINT,
    MUL,
    MUL_I,
    MULU,
    MULU_I,
    DIV,
    DIV_I,
    DIVU,
    DIVU_I,
    ADD,
    ADD_I,
    ADDU,
    ADDU_I,
    SUB,
    SUB_I,
    SUBU,
    SUBU_I,
    ADDU2,
    ADDU2_I,
    ADDU4,
    ADDU4_I,
    ADDU8,
    ADDU8_I,
    ADDU16,
    ADDU16_I,
    LDB,
    LDB_I,
    LDBU,
    LDBU_I,
    LDW,
    LDW_I,
    LDWU,
    LDWU_I,
    LDT,
    LDT_I,
    LDTU,
    LDTU_I,
    LDO,
    LDO_I,
    LDOU,
    LDOU_I,
}

impl OpCode {
    /// The opcode byte of this tag.
    pub open spec fn spec_byte(self) -> u8 {
        match self {
            OpCode::TRAP => 0x00,
            OpCode::FCMP => 0x01,
            OpCode::FUN => 0x02,
            OpCode::FEQL => 0x03,
            OpCode::FADD => 0x04,
            OpCode::FIX => 0x05,
            OpCode::FSUB => 0x06,
            OpCode::FIXU => 0x07,
            OpCode::FLOT => 0x08,
            OpCode::FLOT_I => 0x09,
            OpCode::FLOTU => 0x0A,
            OpCode::FLOTU_I => 0x0B,
            OpCode::SFLOT => 0x0C,
            OpCode::SFLOT_I => 0x0D,
            OpCode::SFLOTU => 0x0E,
            OpCode::SFLOTU_I => 0x0F,
            OpCode::FMUL => 0x10,
            OpCode::FCMPE => 0x11,
            OpCode::FUNE => 0x12,
            OpCode::FEQLE => 0x13,
            OpCode::FDIV => 0x14,
            OpCode::FSQRT => 0x15,
            OpCode::FREM => 0x16,
            OpCode::FINT => 0x17,
            OpCode::MUL => 0x18,
            OpCode::MUL_I => 0x19,
            OpCode::MULU => 0x1A,
            OpCode::MULU_I => 0x1B,
            OpCode::DIV => 0x1C,
            OpCode::DIV_I => 0x1D,
            OpCode::DIVU => 0x1E,
            OpCode::DIVU_I => 0x1F,
            OpCode::ADD => 0x20,
            OpCode::ADD_I => 0x21,
            OpCode::ADDU => 0x22,
            OpCode::ADDU_I => 0x23,
            OpCode::SUB => 0x24,
            OpCode::SUB_I => 0x25,
            OpCode::SUBU => 0x26,
            OpCode::SUBU_I => 0x27,
            OpCode::ADDU2 => 0x28,
            OpCode::ADDU2_I => 0x29,
            OpCode::ADDU4 => 0x3A,
            OpCode::ADDU4_I => 0x3B,
            OpCode::ADDU8 => 0x3C,
            OpCode::ADDU8_I => 0x3D,
            OpCode::ADDU16 => 0x3E,
            OpCode::ADDU16_I => 0x3F,
            OpCode::LDB => 0x80,
            OpCode::LDB_I => 0x81,
            OpCode::LDBU => 0x82,
            OpCode::LDBU_I => 0x83,
            OpCode::LDW => 0x84,
            OpCode::LDW_I => 0x85,
            OpCode::LDWU => 0x86,
            OpCode::LDWU_I => 0x87,
            OpCode::LDT => 0x88,
            OpCode::LDT_I => 0x89,
            OpCode::LDTU => 0x8A,
            OpCode::LDTU_I => 0x8B,
            OpCode::LDO => 0x8C,
            OpCode::LDO_I => 0x8D,
            OpCode::LDOU => 0x8E,
            OpCode::LDOU_I => 0x8F,
        }
    }

    /// The opcode byte of this tag.
    pub fn byte(self) -> (r: u8)
        ensures
            r == self.spec_byte(),
    {
        match self {
            OpCode::TRAP => 0x00,
            OpCode::FCMP => 0x01,
            OpCode::FUN => 0x02,
            OpCode::FEQL => 0x03,
            OpCode::FADD => 0x04,
            OpCode::FIX => 0x05,
            OpCode::FSUB => 0x06,
            OpCode::FIXU => 0x07,
            OpCode::FLOT => 0x08,
            OpCode::FLOT_I => 0x09,
            OpCode::FLOTU => 0x0A,
            OpCode::FLOTU_I => 0x0B,
            OpCode::SFLOT => 0x0C,
            OpCode::SFLOT_I => 0x0D,
            OpCode::SFLOTU => 0x0E,
            OpCode::SFLOTU_I => 0x0F,
            OpCode::FMUL => 0x10,
            OpCode::FCMPE => 0x11,
            OpCode::FUNE => 0x12,
            OpCode::FEQLE => 0x13,
            OpCode::FDIV => 0x14,
            OpCode::FSQRT => 0x15,
            OpCode::FREM => 0x16,
            OpCode::FINT => 0x17,
            OpCode::MUL => 0x18,
            OpCode::MUL_I => 0x19,
            OpCode::MULU => 0x1A,
            OpCode::MULU_I => 0x1B,
            OpCode::DIV => 0x1C,
            OpCode::DIV_I => 0x1D,
            OpCode::DIVU => 0x1E,
            OpCode::DIVU_I => 0x1F,
            OpCode::ADD => 0x20,
            OpCode::ADD_I => 0x21,
            OpCode::ADDU => 0x22,
            OpCode::ADDU_I => 0x23,
            OpCode::SUB => 0x24,
            OpCode::SUB_I => 0x25,
            OpCode::SUBU => 0x26,
            OpCode::SUBU_I => 0x27,
            OpCode::ADDU2 => 0x28,
            OpCode::ADDU2_I => 0x29,
            OpCode::ADDU4 => 0x3A,
            OpCode::ADDU4_I => 0x3B,
            OpCode::ADDU8 => 0x3C,
            OpCode::ADDU8_I => 0x3D,
            OpCode::ADDU16 => 0x3E,
            OpCode::ADDU16_I => 0x3F,
            OpCode::LDB => 0x80,
            OpCode::LDB_I => 0x81,
            OpCode::LDBU => 0x82,
            OpCode::LDBU_I => 0x83,
            OpCode::LDW => 0x84,
            OpCode::LDW_I => 0x85,
            OpCode::LDWU => 0x86,
            OpCode::LDWU_I => 0x87,
            OpCode::LDT => 0x88,
            OpCode::LDT_I => 0x89,
            OpCode::LDTU => 0x8A,
            OpCode::LDTU_I => 0x8B,
            OpCode::LDO => 0x8C,
            OpCode::LDO_I => 0x8D,
            OpCode::LDOU => 0x8E,
            OpCode::LDOU_I => 0x8F,
        }
    }
}

/// A decoded instruction: an opcode tag and three 8-bit operand fields,
/// whose meaning depends on the opcode (register numbers or an immediate).
#[derive(Debug, Clone, Copy, PartialEq, Eq, Structural)]
pub struct Instruction {
    pub op: OpCode,
    pub x: u8,
    pub y: u8,
    pub z: u8,
}

} // verus!
