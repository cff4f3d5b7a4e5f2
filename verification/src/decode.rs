//! Instruction decoding: the bit fields of a 32-bit instruction word and the
//! arithmetic operation they select.
//!
//! Field positions are stated arithmetically: the bits from position `p`
//! upwards are `word / 2^p`, and the lowest `n` bits of a number are the
//! number modulo `2^n`.

use vstd::prelude::*;

use crate::diagnostic::Diagnostic;

verus! {

/// Opcode of the register-register arithmetic family.
pub const OPCODE_REGISTER: u32 = 0x33;

/// Opcode of the register-immediate arithmetic family.
pub const OPCODE_IMMEDIATE: u32 = 0x13;

/// The 64-bit two's-complement form of an integer: the integer reduced
/// modulo 2^64.
pub open spec fn wrapped(value: int) -> u64 {
    (value % 0x1_0000_0000_0000_0000) as u64
}

/// The I-type immediate of `word` as a signed number: bits 20 to 31 read as a
/// 12-bit two's-complement quantity, so it lies between -2048 and 2047.
pub open spec fn immediate_of(word: u32) -> int {
    let raw = word as int / 0x10_0000;
    if raw < 0x800 {
        raw
    } else {
        raw - 0x1000
    }
}

/// The fields of one instruction word.
#[derive(Clone, Copy, Debug, PartialEq, Eq, Structural)]
pub struct Fields {
    /// Bits 0 to 6: the instruction family.
    pub opcode: u32,
    /// Bits 7 to 11: index of the destination register.
    pub rd: usize,
    /// Bits 12 to 14: selects the operation within a family.
    pub funct3: u32,
    /// Bits 15 to 19: index of the first source register.
    pub rs1: usize,
    /// Bits 20 to 24: index of the second source register.
    pub rs2: usize,
    /// Bits 25 to 31: second selector of the register-register family.
    pub funct7: u32,
    /// Bits 20 to 31, sign-extended to 64 bits.
    pub imm: u64,
}

/// An arithmetic operation of the instruction set.
#[derive(Clone, Copy, Debug, PartialEq, Eq, Structural)]
pub enum Operation {
    /// `rd = rs1 + rs2`, modulo 2^64.
    Add,
    /// `rd = rs1 - rs2`, modulo 2^64.
    Sub,
    /// `rd = rs1 ^ rs2`.
    Xor,
    /// `rd = rs1 | rs2`.
    Or,
    /// `rd = rs1 & rs2`.
    And,
    /// `rd = rs1 + imm`, modulo 2^64.
    Addi,
    /// `rd = rs1 ^ imm`.
    Xori,
    /// `rd = rs1 | imm`.
    Ori,
    /// `rd = rs1 & imm`.
    Andi,
}

impl Operation {
    /// The value the operation computes from the first source register `a`
    /// and either the second source register `b` or the immediate `imm`.
    pub open spec fn result(self, a: u64, b: u64, imm: u64) -> u64 {
        match self {
            Operation::Add => wrapped(a + b),
            Operation::Sub => wrapped(a - b),
            Operation::Xor => a ^ b,
            Operation::Or => a | b,
            Operation::And => a & b,
            Operation::Addi => wrapped(a + imm),
            Operation::Xori => a ^ imm,
            Operation::Ori => a | imm,
            Operation::Andi => a & imm,
        }
    }

    /// Computes the operation's result.
    pub fn apply(self, a: u64, b: u64, imm: u64) -> (value: u64)
        ensures
            value == self.result(a, b, imm),
    {
        match self {
            Operation::Add => a.wrapping_add(b),
            Operation::Sub => a.wrapping_sub(b),
            Operation::Xor => a ^ b,
            Operation::Or => a | b,
            Operation::And => a & b,
            Operation::Addi => a.wrapping_add(imm),
            Operation::Xori => a ^ imm,
            Operation::Ori => a | imm,
            Operation::Andi => a & imm,
        }
    }
}

impl Fields {
    /// The fields that `word` encodes.
    pub open spec fn of(word: u32) -> Fields {
        Fields {
            opcode: word % 0x80,
            rd: ((word / 0x80) % 0x20) as usize,
            funct3: (word / 0x1000) % 0x8,
            rs1: ((word / 0x8000) % 0x20) as usize,
            rs2: ((word / 0x10_0000) % 0x20) as usize,
            funct7: word / 0x200_0000,
            imm: wrapped(immediate_of(word)),
        }
    }

    /// The operation that the fields select, if they select one: the
    /// dispatch table of the instruction set.
    pub open spec fn spec_operation(&self) -> Option<Operation> {
        if self.opcode == OPCODE_REGISTER {
            if self.funct3 == 0x0 && self.funct7 == 0x00 {
                Some(Operation::Add)
            } else if self.funct3 == 0x0 && self.funct7 == 0x20 {
                Some(Operation::Sub)
            } else if self.funct3 == 0x4 && self.funct7 == 0x00 {
                Some(Operation::Xor)
            } else if self.funct3 == 0x6 && self.funct7 == 0x00 {
                Some(Operation::Or)
            } else if self.funct3 == 0x7 && self.funct7 == 0x00 {
                Some(Operation::And)
            } else {
                None
            }
        } else if self.opcode == OPCODE_IMMEDIATE {
            if self.funct3 == 0x0 {
                Some(Operation::Addi)
            } else if self.funct3 == 0x4 {
                Some(Operation::Xori)
            } else if self.funct3 == 0x6 {
                Some(Operation::Ori)
            } else if self.funct3 == 0x7 {
                Some(Operation::Andi)
            } else {
                None
            }
        } else {
            None
        }
    }

    /// The diagnostic that fields which select no operation call for; fields
    /// that select one call for none.
    pub open spec fn spec_diagnostic(&self) -> Option<Diagnostic> {
        if self.spec_operation() is Some {
            None
        } else if self.opcode == OPCODE_REGISTER {
            Some(Diagnostic::UnknownRType { funct3: self.funct3, funct7: self.funct7 })
        } else if self.opcode == OPCODE_IMMEDIATE {
            Some(Diagnostic::UnknownIType { funct3: self.funct3 })
        } else {
            Some(Diagnostic::UnknownOpcode { opcode: self.opcode })
        }
    }

    /// Selects the operation by opcode, `funct3` and, in the
    /// register-register family, `funct7`.
    #[verifier::when_used_as_spec(spec_operation)]
    pub fn operation(&self) -> (selected: Option<Operation>)
        ensures
            selected == self.spec_operation(),
    {
        match self.opcode {
            OPCODE_REGISTER => match (self.funct3, self.funct7) {
                (0x0, 0x00) => Some(Operation::Add),
                (0x0, 0x20) => Some(Operation::Sub),
                (0x4, 0x00) => Some(Operation::Xor),
                (0x6, 0x00) => Some(Operation::Or),
                (0x7, 0x00) => Some(Operation::And),
                _ => None,
            },
            OPCODE_IMMEDIATE => match self.funct3 {
                0x0 => Some(Operation::Addi),
                0x4 => Some(Operation::Xori),
                0x6 => Some(Operation::Ori),
                0x7 => Some(Operation::Andi),
                _ => None,
            },
            _ => None,
        }
    }

    /// The diagnostic to emit for these fields: one exactly when they select
    /// no operation.
    #[verifier::when_used_as_spec(spec_diagnostic)]
    pub fn diagnostic(&self) -> (notice: Option<Diagnostic>)
        ensures
            notice == self.spec_diagnostic(),
            notice is Some <==> self.spec_operation() is None,
    {
        if self.operation().is_some() {
            None
        } else if self.opcode == OPCODE_REGISTER {
            Some(Diagnostic::UnknownRType { funct3: self.funct3, funct7: self.funct7 })
        } else if self.opcode == OPCODE_IMMEDIATE {
            Some(Diagnostic::UnknownIType { funct3: self.funct3 })
        } else {
            Some(Diagnostic::UnknownOpcode { opcode: self.opcode })
        }
    }
}

/// Masks and shifts select the same bits as division and remainder by
/// powers of two, and an arithmetic shift of the signed word sign-extends
/// its upper twelve bits.
proof fn lemma_field_bits(word: u32)
    by (bit_vector)
    ensures
        word & 0x7F == word % 0x80,
        (word >> 7) & 0x1F == (word / 0x80) % 0x20,
        (word >> 12) & 0x7 == (word / 0x1000) % 0x8,
        (word >> 15) & 0x1F == (word / 0x8000) % 0x20,
        (word >> 20) & 0x1F == (word / 0x10_0000) % 0x20,
        (word >> 25) & 0x7F == word / 0x200_0000,
        word / 0x10_0000 < 0x800 ==> ((word as i32) >> 20) as i64 as u64 == (word / 0x10_0000) as u64,
        word / 0x10_0000 >= 0x800 ==> ((word as i32) >> 20) as i64 as u64 == (0xFFFF_FFFF_FFFF_F000u64
            + (word / 0x10_0000) as u64) as u64,
{
}

/// Splits an instruction word into its fields.
pub fn decode(word: u32) -> (fields: Fields)
    ensures
        fields == Fields::of(word),
        fields.opcode < 0x80,
        fields.rd < 32,
        fields.funct3 < 8,
        fields.rs1 < 32,
        fields.rs2 < 32,
        fields.funct7 < 0x80,
{
    proof {
        lemma_field_bits(word);
    }
    Fields {
        opcode: word & 0x7F,
        rd: ((word >> 7) & 0x1F) as usize,
        funct3: (word >> 12) & 0x7,
        rs1: ((word >> 15) & 0x1F) as usize,
        rs2: ((word >> 20) & 0x1F) as usize,
        funct7: (word >> 25) & 0x7F,
        imm: ((word as i32) >> 20) as i64 as u64,
    }
}

} // verus!
