//! The decoder: from a 32-bit instruction word to an [`Instr`].
//!
//! The encoding scatters the bits of an immediate over the word, each
//! instruction family in its own way. The spec functions here say where each
//! bit lies, as arithmetic on the fields of the word; the executable
//! functions get there by shifting and masking.

use vstd::prelude::*;
use vstd::arithmetic::power2::lemma2_to64;
use vstd::bits::lemma_u32_shr_is_div;
use crate::bitfield::{Reg, bits, field, lemma_field_bound, reg_decode, sign_ext, to_unsigned, twos, wrap};
use crate::instr::{AluOp, Condition, Instr, LoadKind, StoreKind};

verus! {

/// The one instruction word that calls the environment.
pub const ECALL: u32 = 0x0000_0073;

/// The opcode that loads an upper immediate.
pub const OPCODE_LOAD_UPPER: u32 = 0b0110111;

/// The opcode that adds an upper immediate to the program counter.
pub const OPCODE_ADD_UPPER_PC: u32 = 0b0010111;

/// The opcode of the direct jump.
pub const OPCODE_JUMP: u32 = 0b1101111;

/// The opcode of the indirect jump.
pub const OPCODE_JUMP_REGISTER: u32 = 0b1100111;

/// The opcode of the conditional branches.
pub const OPCODE_BRANCH: u32 = 0b1100011;

/// The opcode of the loads.
pub const OPCODE_LOAD: u32 = 0b0000011;

/// The opcode of the stores.
pub const OPCODE_STORE: u32 = 0b0100011;

/// The opcode of arithmetic on a register and an immediate.
pub const OPCODE_ALU_IMMEDIATE: u32 = 0b0010011;

/// The opcode of arithmetic on two registers.
pub const OPCODE_ALU_REGISTER: u32 = 0b0110011;

/// The opcode: the low 7 bits.
pub open spec fn opcode_of(word: u32) -> int {
    field(word, 0, 7)
}

/// The destination register: 5 bits from bit 7.
pub open spec fn rd_of(word: u32) -> int {
    field(word, 7, 5)
}

/// The function selector: 3 bits from bit 12.
pub open spec fn funct3_of(word: u32) -> int {
    field(word, 12, 3)
}

/// The first source register: 5 bits from bit 15.
pub open spec fn rs1_of(word: u32) -> int {
    field(word, 15, 5)
}

/// The second source register: 5 bits from bit 20.
pub open spec fn rs2_of(word: u32) -> int {
    field(word, 20, 5)
}

/// The top 7 bits of the word.
pub open spec fn funct7_of(word: u32) -> int {
    field(word, 25, 7)
}

/// The shift amount of an immediate shift: 5 bits from bit 20.
pub open spec fn shamt_of(word: u32) -> int {
    field(word, 20, 5)
}

/// The 12-bit signed immediate of loads, indirect jumps and immediate
/// arithmetic: bits 20 to 31.
pub open spec fn imm_i_spec(word: u32) -> int {
    twos(field(word, 20, 12), 12)
}

/// The 12-bit signed immediate of stores: its low 5 bits are bits 7 to 11 of
/// the word, its high 7 bits are bits 25 to 31.
pub open spec fn imm_s_spec(word: u32) -> int {
    twos(field(word, 25, 7) * 32 + field(word, 7, 5), 12)
}

/// The 13-bit signed immediate of branches, always even: bit 12 is bit 31 of
/// the word, bit 11 is bit 7, bits 5 to 10 are bits 25 to 30, bits 1 to 4 are
/// bits 8 to 11.
pub open spec fn imm_b_spec(word: u32) -> int {
    twos(
        field(word, 31, 1) * 4096 + field(word, 7, 1) * 2048 + field(word, 25, 6) * 32 + field(
            word,
            8,
            4,
        ) * 2,
        13,
    )
}

/// The upper immediate: bits 12 to 31 of the word in place, the low 12 bits
/// zero.
pub open spec fn imm_u_spec(word: u32) -> int {
    field(word, 12, 20) * 4096
}

/// The 21-bit signed immediate of direct jumps, always even: bit 20 is bit 31
/// of the word, bits 12 to 19 are in place, bit 11 is bit 20 of the word,
/// bits 1 to 10 are bits 21 to 30.
pub open spec fn imm_j_spec(word: u32) -> int {
    twos(
        field(word, 31, 1) * 0x10_0000 + field(word, 12, 8) * 4096 + field(word, 20, 1) * 2048
            + field(word, 21, 10) * 2,
        21,
    )
}

/// The branch condition that a function selector stands for.
pub open spec fn condition_of(funct3: int) -> Option<Condition> {
    if funct3 == 0 {
        Some(Condition::Equal)
    } else if funct3 == 1 {
        Some(Condition::NotEqual)
    } else if funct3 == 4 {
        Some(Condition::Less)
    } else if funct3 == 5 {
        Some(Condition::GreaterEqual)
    } else if funct3 == 6 {
        Some(Condition::LessUnsigned)
    } else if funct3 == 7 {
        Some(Condition::GreaterEqualUnsigned)
    } else {
        None
    }
}

/// The kind of load that a function selector stands for.
pub open spec fn load_kind_of(funct3: int) -> Option<LoadKind> {
    if funct3 == 0 {
        Some(LoadKind::Byte)
    } else if funct3 == 1 {
        Some(LoadKind::Half)
    } else if funct3 == 2 {
        Some(LoadKind::Word)
    } else if funct3 == 4 {
        Some(LoadKind::ByteUnsigned)
    } else if funct3 == 5 {
        Some(LoadKind::HalfUnsigned)
    } else {
        None
    }
}

/// The kind of store that a function selector stands for.
pub open spec fn store_kind_of(funct3: int) -> Option<StoreKind> {
    if funct3 == 0 {
        Some(StoreKind::Byte)
    } else if funct3 == 1 {
        Some(StoreKind::Half)
    } else if funct3 == 2 {
        Some(StoreKind::Word)
    } else {
        None
    }
}

/// The operation of an immediate arithmetic instruction. The two shifts
/// accept one value of the top 7 bits each, the other operations any: there
/// those bits belong to the immediate.
pub open spec fn alu_immediate_of(funct3: int, funct7: int) -> Option<AluOp> {
    if funct3 == 0 {
        Some(AluOp::Add)
    } else if funct3 == 1 {
        if funct7 == 0 {
            Some(AluOp::ShiftLeft)
        } else {
            None
        }
    } else if funct3 == 2 {
        Some(AluOp::Less)
    } else if funct3 == 3 {
        Some(AluOp::LessUnsigned)
    } else if funct3 == 4 {
        Some(AluOp::Xor)
    } else if funct3 == 5 {
        if funct7 == 0 {
            Some(AluOp::ShiftRight)
        } else if funct7 == 0x20 {
            Some(AluOp::ShiftRightArithmetic)
        } else {
            None
        }
    } else if funct3 == 6 {
        Some(AluOp::Or)
    } else if funct3 == 7 {
        Some(AluOp::And)
    } else {
        None
    }
}

/// The operation of a register arithmetic instruction.
pub open spec fn alu_register_of(funct3: int, funct7: int) -> Option<AluOp> {
    if funct7 == 0 {
        if funct3 == 0 {
            Some(AluOp::Add)
        } else if funct3 == 1 {
            Some(AluOp::ShiftLeft)
        } else if funct3 == 2 {
            Some(AluOp::Less)
        } else if funct3 == 3 {
            Some(AluOp::LessUnsigned)
        } else if funct3 == 4 {
            Some(AluOp::Xor)
        } else if funct3 == 5 {
            Some(AluOp::ShiftRight)
        } else if funct3 == 6 {
            Some(AluOp::Or)
        } else if funct3 == 7 {
            Some(AluOp::And)
        } else {
            None
        }
    } else if funct7 == 0x20 {
        if funct3 == 0 {
            Some(AluOp::Sub)
        } else if funct3 == 5 {
            Some(AluOp::ShiftRightArithmetic)
        } else {
            None
        }
    } else {
        None
    }
}

/// The second operand of an immediate arithmetic instruction: the shift
/// amount for a shift, else the signed immediate as a 32-bit pattern.
pub open spec fn immediate_operand(op: AluOp, word: u32) -> u32 {
    match op {
        AluOp::ShiftLeft | AluOp::ShiftRight | AluOp::ShiftRightArithmetic => shamt_of(word) as u32,
        _ => wrap(imm_i_spec(word)),
    }
}

/// Whether the opcode of a word is one of the machine's. The opcode of the
/// indirect jump counts only with the function selector 0, and of the
/// opcode of the environment call only that one word.
pub open spec fn known_opcode_spec(word: u32) -> bool {
    let opcode = opcode_of(word);
    ||| word == ECALL
    ||| opcode == OPCODE_LOAD_UPPER
    ||| opcode == OPCODE_ADD_UPPER_PC
    ||| opcode == OPCODE_JUMP
    ||| opcode == OPCODE_JUMP_REGISTER && funct3_of(word) == 0
    ||| opcode == OPCODE_BRANCH
    ||| opcode == OPCODE_LOAD
    ||| opcode == OPCODE_STORE
    ||| opcode == OPCODE_ALU_IMMEDIATE
    ||| opcode == OPCODE_ALU_REGISTER
}

/// The instruction that a word encodes, `None` where it encodes none.
pub open spec fn decode_spec(word: u32) -> Option<Instr> {
    let opcode = opcode_of(word);
    let rd = rd_of(word) as Reg;
    let rs1 = rs1_of(word) as Reg;
    let rs2 = rs2_of(word) as Reg;
    let funct3 = funct3_of(word);
    let funct7 = funct7_of(word);
    if word == ECALL {
        Some(Instr::EnvironmentCall)
    } else if opcode == OPCODE_LOAD_UPPER {
        Some(Instr::LoadUpper { rd, value: imm_u_spec(word) as u32 })
    } else if opcode == OPCODE_ADD_UPPER_PC {
        Some(Instr::AddUpperPc { rd, value: imm_u_spec(word) as u32 })
    } else if opcode == OPCODE_JUMP {
        Some(Instr::Jump { rd, offset: imm_j_spec(word) as i32 })
    } else if opcode == OPCODE_JUMP_REGISTER && funct3 == 0 {
        Some(Instr::JumpRegister { rd, base: rs1, offset: imm_i_spec(word) as i32 })
    } else if opcode == OPCODE_BRANCH {
        match condition_of(funct3) {
            Some(condition) => Some(
                Instr::Branch { condition, rs1, rs2, offset: imm_b_spec(word) as i32 },
            ),
            None => None,
        }
    } else if opcode == OPCODE_LOAD {
        match load_kind_of(funct3) {
            Some(kind) => Some(Instr::Load { kind, rd, base: rs1, offset: imm_i_spec(word) as i32 }),
            None => None,
        }
    } else if opcode == OPCODE_STORE {
        match store_kind_of(funct3) {
            Some(width) => Some(
                Instr::Store { width, base: rs1, source: rs2, offset: imm_s_spec(word) as i32 },
            ),
            None => None,
        }
    } else if opcode == OPCODE_ALU_IMMEDIATE {
        match alu_immediate_of(funct3, funct7) {
            Some(op) => Some(
                Instr::AluImmediate { op, rd, rs1, operand: immediate_operand(op, word) },
            ),
            None => None,
        }
    } else if opcode == OPCODE_ALU_REGISTER {
        match alu_register_of(funct3, funct7) {
            Some(op) => Some(Instr::AluRegister { op, rd, rs1, rs2 }),
            None => None,
        }
    } else {
        None
    }
}

/// The field of `width` bits of `word` at bit `low`.
fn take(word: u32, low: u32, width: u32) -> (r: u32)
    requires
        1 <= width <= 31,
        low < 32,
    ensures
        r as int == field(word, low as nat, width as nat),
{
    proof {
        lemma_field_bound(word, low as nat, width as nat);
        lemma2_to64();
        vstd::arithmetic::power2::lemma_pow2_strictly_increases(width as nat, 32);
    }
    bits(0, width - 1, word, low)
}

/// The register index in the 5 bits of `word` from bit `low`.
fn register_at(word: u32, low: u32) -> (r: Reg)
    requires
        low < 32,
    ensures
        r as int == field(word, low as nat, 5),
        r < 32,
{
    proof {
        lemma_u32_shr_is_div(word, low);
        lemma2_to64();
    }
    reg_decode(word >> low)
}

/// The opcode of an instruction word.
pub fn opcode(word: u32) -> (r: u32)
    ensures
        r as int == opcode_of(word),
{
    take(word, 0, 7)
}

/// The destination register of an instruction word.
pub fn rd(word: u32) -> (r: Reg)
    ensures
        r as int == rd_of(word),
        r < 32,
{
    register_at(word, 7)
}

/// The first source register of an instruction word.
pub fn rs1(word: u32) -> (r: Reg)
    ensures
        r as int == rs1_of(word),
        r < 32,
{
    register_at(word, 15)
}

/// The second source register of an instruction word.
pub fn rs2(word: u32) -> (r: Reg)
    ensures
        r as int == rs2_of(word),
        r < 32,
{
    register_at(word, 20)
}

/// The function selector of an instruction word.
pub fn funct3(word: u32) -> (r: u32)
    ensures
        r as int == funct3_of(word),
{
    take(word, 12, 3)
}

/// The top 7 bits of an instruction word.
pub fn funct7(word: u32) -> (r: u32)
    ensures
        r as int == funct7_of(word),
{
    take(word, 25, 7)
}

/// The immediate of a load, an indirect jump or an immediate arithmetic
/// instruction.
pub fn imm_i(word: u32) -> (r: i32)
    ensures
        r as int == imm_i_spec(word),
        -2048 <= r < 2048,
{
    let raw: u32 = word >> 20;
    proof {
        lemma_u32_shr_is_div(word, 20);
        lemma2_to64();
        assert(raw as int == field(word, 20, 12));
    }
    sign_ext(raw, 12)
}

/// The immediate of a store.
pub fn imm_s(word: u32) -> (r: i32)
    ensures
        r as int == imm_s_spec(word),
        -2048 <= r < 2048,
{
    let raw: u32 = ((word >> 20) & 0b111111100000) | ((word >> 7) & 0b11111);
    proof {
        lemma2_to64();
        assert(raw == ((word / 0x200_0000) % 128) * 32 + (word / 128) % 32) by (bit_vector)
            requires
                raw == ((word >> 20) & 0b111111100000) | ((word >> 7) & 0b11111),
        ;
        assert(raw as int == field(word, 25, 7) * 32 + field(word, 7, 5));
        assert(raw < 4096);
    }
    sign_ext(raw, 12)
}

/// In a word whose fields lie apart, joining them bit by bit adds them.
proof fn lemma_join_branch(a: u32, b: u32, c: u32, d: u32, fa: u32, fb: u32, fc: u32, fd: u32)
    by (bit_vector)
    requires
        a == fa * 2,
        fa < 16,
        b == fb * 32,
        fb < 64,
        c == fc * 2048,
        fc < 2,
        d == fd * 4096,
        fd < 2,
    ensures
        a | b | c | d == a + b + c + d,
{
}

/// The immediate of a conditional branch.
pub fn imm_b(word: u32) -> (r: i32)
    ensures
        r as int == imm_b_spec(word),
        -4096 <= r < 4096,
{
    let a: u32 = bits(1, 4, word, 8);
    let b: u32 = bits(5, 10, word, 25);
    let c: u32 = bits(11, 11, word, 7);
    let d: u32 = bits(12, 12, word, 31);
    let raw: u32 = a | b | c | d;
    proof {
        lemma2_to64();
        lemma_field_bound(word, 8, 4);
        lemma_field_bound(word, 25, 6);
        lemma_field_bound(word, 7, 1);
        lemma_field_bound(word, 31, 1);
        lemma_join_branch(
            a,
            b,
            c,
            d,
            field(word, 8, 4) as u32,
            field(word, 25, 6) as u32,
            field(word, 7, 1) as u32,
            field(word, 31, 1) as u32,
        );
    }
    sign_ext(raw, 13)
}

/// The upper immediate.
pub fn imm_u(word: u32) -> (r: u32)
    ensures
        r as int == imm_u_spec(word),
{
    let r: u32 = word & 0xfffff000;
    proof {
        lemma2_to64();
        assert(r == (word / 4096) * 4096) by (bit_vector)
            requires
                r == word & 0xfffff000,
        ;
        assert(word as int / 4096 < 0x10_0000);
    }
    r
}

/// In a word whose fields lie apart, joining them bit by bit adds them.
proof fn lemma_join_jump(a: u32, b: u32, c: u32, d: u32, fa: u32, fb: u32, fc: u32, fd: u32)
    by (bit_vector)
    requires
        a == fa * 2,
        fa < 1024,
        b == fb * 2048,
        fb < 2,
        c == fc * 4096,
        fc < 256,
        d == fd * 0x10_0000,
        fd < 2,
    ensures
        a | b | c | d == a + b + c + d,
{
}

/// The immediate of a direct jump.
pub fn imm_j(word: u32) -> (r: i32)
    ensures
        r as int == imm_j_spec(word),
        -0x10_0000 <= r < 0x10_0000,
{
    let a: u32 = bits(1, 10, word, 21);
    let b: u32 = bits(11, 11, word, 20);
    let c: u32 = bits(12, 19, word, 12);
    let d: u32 = bits(20, 20, word, 31);
    let raw: u32 = a | b | c | d;
    proof {
        lemma2_to64();
        lemma_field_bound(word, 21, 10);
        lemma_field_bound(word, 20, 1);
        lemma_field_bound(word, 12, 8);
        lemma_field_bound(word, 31, 1);
        lemma_join_jump(
            a,
            b,
            c,
            d,
            field(word, 21, 10) as u32,
            field(word, 20, 1) as u32,
            field(word, 12, 8) as u32,
            field(word, 31, 1) as u32,
        );
    }
    sign_ext(raw, 21)
}

/// The branch condition for a function selector.
fn condition(funct3: u32) -> (r: Option<Condition>)
    ensures
        r == condition_of(funct3 as int),
{
    match funct3 {
        0b000 => Some(Condition::Equal),
        0b001 => Some(Condition::NotEqual),
        0b100 => Some(Condition::Less),
        0b101 => Some(Condition::GreaterEqual),
        0b110 => Some(Condition::LessUnsigned),
        0b111 => Some(Condition::GreaterEqualUnsigned),
        _ => None,
    }
}

/// The kind of load for a function selector.
fn load_kind(funct3: u32) -> (r: Option<LoadKind>)
    ensures
        r == load_kind_of(funct3 as int),
{
    match funct3 {
        0b000 => Some(LoadKind::Byte),
        0b001 => Some(LoadKind::Half),
        0b010 => Some(LoadKind::Word),
        0b100 => Some(LoadKind::ByteUnsigned),
        0b101 => Some(LoadKind::HalfUnsigned),
        _ => None,
    }
}

/// The kind of store for a function selector.
fn store_kind(funct3: u32) -> (r: Option<StoreKind>)
    ensures
        r == store_kind_of(funct3 as int),
{
    match funct3 {
        0b000 => Some(StoreKind::Byte),
        0b001 => Some(StoreKind::Half),
        0b010 => Some(StoreKind::Word),
        _ => None,
    }
}

/// The operation of an immediate arithmetic instruction.
fn alu_immediate(funct3: u32, funct7: u32) -> (r: Option<AluOp>)
    ensures
        r == alu_immediate_of(funct3 as int, funct7 as int),
{
    match funct3 {
        0b000 => Some(AluOp::Add),
        0b001 => if funct7 == 0 {
            Some(AluOp::ShiftLeft)
        } else {
            None
        },
        0b010 => Some(AluOp::Less),
        0b011 => Some(AluOp::LessUnsigned),
        0b100 => Some(AluOp::Xor),
        0b101 => if funct7 == 0 {
            Some(AluOp::ShiftRight)
        } else if funct7 == 0b0100000 {
            Some(AluOp::ShiftRightArithmetic)
        } else {
            None
        },
        0b110 => Some(AluOp::Or),
        0b111 => Some(AluOp::And),
        _ => None,
    }
}

/// The operation of a register arithmetic instruction.
fn alu_register(funct3: u32, funct7: u32) -> (r: Option<AluOp>)
    ensures
        r == alu_register_of(funct3 as int, funct7 as int),
{
    if funct7 == 0 {
        match funct3 {
            0b000 => Some(AluOp::Add),
            0b001 => Some(AluOp::ShiftLeft),
            0b010 => Some(AluOp::Less),
            0b011 => Some(AluOp::LessUnsigned),
            0b100 => Some(AluOp::Xor),
            0b101 => Some(AluOp::ShiftRight),
            0b110 => Some(AluOp::Or),
            0b111 => Some(AluOp::And),
            _ => None,
        }
    } else if funct7 == 0b0100000 {
        match funct3 {
            0b000 => Some(AluOp::Sub),
            0b101 => Some(AluOp::ShiftRightArithmetic),
            _ => None,
        }
    } else {
        None
    }
}

/// The second operand of an immediate arithmetic instruction.
fn operand(op: AluOp, word: u32) -> (r: u32)
    ensures
        r == immediate_operand(op, word),
{
    match op {
        AluOp::ShiftLeft | AluOp::ShiftRight | AluOp::ShiftRightArithmetic => take(word, 20, 5),
        _ => to_unsigned(imm_i(word)),
    }
}

/// Whether the opcode of `word` is one of the machine's: where it is not,
/// [`decode`] has nothing to look at but the opcode to refuse the word.
pub fn known_opcode(word: u32) -> (r: bool)
    ensures
        r == known_opcode_spec(word),
{
    let opcode: u32 = opcode(word);
    word == ECALL || opcode == OPCODE_LOAD_UPPER || opcode == OPCODE_ADD_UPPER_PC || opcode
        == OPCODE_JUMP || (opcode == OPCODE_JUMP_REGISTER && funct3(word) == 0) || opcode
        == OPCODE_BRANCH || opcode == OPCODE_LOAD || opcode == OPCODE_STORE || opcode
        == OPCODE_ALU_IMMEDIATE || opcode == OPCODE_ALU_REGISTER
}

/// Decodes an instruction word. Returns `None` where the word encodes no
/// instruction of the machine: its opcode is not one of the machine's, or
/// its function selector or top bits are none that the opcode accepts.
pub fn decode(word: u32) -> (r: Option<Instr>)
    ensures
        r == decode_spec(word),
        r matches Some(instr) ==> instr.wf(),
{
    if word == ECALL {
        return Some(Instr::EnvironmentCall);
    }
    let opcode: u32 = opcode(word);
    let rd: Reg = rd(word);
    let rs1: Reg = rs1(word);
    let rs2: Reg = rs2(word);
    let funct3: u32 = funct3(word);
    let funct7: u32 = funct7(word);
    if opcode == OPCODE_LOAD_UPPER {
        Some(Instr::LoadUpper { rd, value: imm_u(word) })
    } else if opcode == OPCODE_ADD_UPPER_PC {
        Some(Instr::AddUpperPc { rd, value: imm_u(word) })
    } else if opcode == OPCODE_JUMP {
        Some(Instr::Jump { rd, offset: imm_j(word) })
    } else if opcode == OPCODE_JUMP_REGISTER && funct3 == 0 {
        Some(Instr::JumpRegister { rd, base: rs1, offset: imm_i(word) })
    } else if opcode == OPCODE_BRANCH {
        match condition(funct3) {
            Some(condition) => Some(Instr::Branch { condition, rs1, rs2, offset: imm_b(word) }),
            None => None,
        }
    } else if opcode == OPCODE_LOAD {
        match load_kind(funct3) {
            Some(kind) => Some(Instr::Load { kind, rd, base: rs1, offset: imm_i(word) }),
            None => None,
        }
    } else if opcode == OPCODE_STORE {
        match store_kind(funct3) {
            Some(width) => Some(Instr::Store { width, base: rs1, source: rs2, offset: imm_s(word) }),
            None => None,
        }
    } else if opcode == OPCODE_ALU_IMMEDIATE {
        match alu_immediate(funct3, funct7) {
            Some(op) => Some(Instr::AluImmediate { op, rd, rs1, operand: operand(op, word) }),
            None => None,
        }
    } else if opcode == OPCODE_ALU_REGISTER {
        match alu_register(funct3, funct7) {
            Some(op) => Some(Instr::AluRegister { op, rd, rs1, rs2 }),
            None => None,
        }
    } else {
        None
    }
}

} // verus!
