//! The instructions of the machine, as the decoder hands them to the
//! executor.

use vstd::prelude::*;
use crate::bitfield::Reg;

verus! {

/// Number of registers in the register file.
pub const REGISTERS: usize = 32;

/// What a load reads, and how it widens it to 32 bits.
#[derive(Clone, Copy, Debug, PartialEq, Eq, Structural)]
pub enum LoadKind {
    /// One byte, sign-extended.
    Byte,
    /// Two bytes, sign-extended.
    Half,
    /// Four bytes.
    Word,
    /// One byte, zero-extended.
    ByteUnsigned,
    /// Two bytes, zero-extended.
    HalfUnsigned,
}

/// How many of the low bytes of a register a store writes.
#[derive(Clone, Copy, Debug, PartialEq, Eq, Structural)]
pub enum StoreKind {
    /// The low byte.
    Byte,
    /// The low two bytes.
    Half,
    /// All four bytes.
    Word,
}

/// The test a conditional branch makes on its two source registers.
#[derive(Clone, Copy, Debug, PartialEq, Eq, Structural)]
pub enum Condition {
    Equal,
    NotEqual,
    /// Less than, both read as two's complement.
    Less,
    /// Greater than or equal, both read as two's complement.
    GreaterEqual,
    /// Less than, both read as unsigned.
    LessUnsigned,
    /// Greater than or equal, both read as unsigned.
    GreaterEqualUnsigned,
}

/// The operation of an arithmetic instruction.
#[derive(Clone, Copy, Debug, PartialEq, Eq, Structural)]
pub enum AluOp {
    Add,
    Sub,
    ShiftLeft,
    /// 1 if the first operand is less than the second, both read as two's
    /// complement; else 0.
    Less,
    /// 1 if the first operand is less than the second, both read as
    /// unsigned; else 0.
    LessUnsigned,
    Xor,
    /// Logical shift right: zeros come in from the left.
    ShiftRight,
    /// Arithmetic shift right: copies of the sign bit come in from the left.
    ShiftRightArithmetic,
    Or,
    And,
}

/// One decoded instruction.
#[derive(Clone, Copy, Debug, PartialEq, Eq, Structural)]
pub enum Instr {
    /// Writes `value`, whose low 12 bits are zero, to `rd`.
    LoadUpper { rd: Reg, value: u32 },
    /// Writes the instruction's own address plus `value` to `rd`.
    AddUpperPc { rd: Reg, value: u32 },
    /// Writes the return address, which is the program counter after the
    /// fetch, to `rd` and jumps `offset` bytes from that address.
    Jump { rd: Reg, offset: i32 },
    /// Writes the return address to `rd` and jumps to register `base` plus
    /// `offset`, with the lowest bit cleared.
    JumpRegister { rd: Reg, base: Reg, offset: i32 },
    /// Jumps `offset` bytes from the program counter after the fetch if
    /// `condition` holds of registers `rs1` and `rs2`.
    Branch { condition: Condition, rs1: Reg, rs2: Reg, offset: i32 },
    /// Reads memory at register `base` plus `offset` into `rd`.
    Load { kind: LoadKind, rd: Reg, base: Reg, offset: i32 },
    /// Writes the low bytes of register `source` to memory at register
    /// `base` plus `offset`.
    Store { width: StoreKind, base: Reg, source: Reg, offset: i32 },
    /// Applies `op` to register `rs1` and `operand`, into `rd`.
    AluImmediate { op: AluOp, rd: Reg, rs1: Reg, operand: u32 },
    /// Applies `op` to registers `rs1` and `rs2`, into `rd`.
    AluRegister { op: AluOp, rd: Reg, rs1: Reg, rs2: Reg },
    /// Calls the environment.
    EnvironmentCall,
}

impl Instr {
    /// Every register that the instruction names exists.
    pub open spec fn wf(self) -> bool {
        match self {
            Instr::LoadUpper { rd, .. } => rd < REGISTERS,
            Instr::AddUpperPc { rd, .. } => rd < REGISTERS,
            Instr::Jump { rd, .. } => rd < REGISTERS,
            Instr::JumpRegister { rd, base, .. } => rd < REGISTERS && base < REGISTERS,
            Instr::Branch { rs1, rs2, .. } => rs1 < REGISTERS && rs2 < REGISTERS,
            Instr::Load { rd, base, .. } => rd < REGISTERS && base < REGISTERS,
            Instr::Store { base, source, .. } => base < REGISTERS && source < REGISTERS,
            Instr::AluImmediate { rd, rs1, .. } => rd < REGISTERS && rs1 < REGISTERS,
            Instr::AluRegister { rd, rs1, rs2, .. } => rd < REGISTERS && rs1 < REGISTERS && rs2
                < REGISTERS,
            Instr::EnvironmentCall => true,
        }
    }
}

} // verus!
