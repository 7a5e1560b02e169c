//! The arithmetic of the machine: what each operation makes of two 32-bit
//! operands, and when a branch condition holds.

use vstd::prelude::*;
use vstd::arithmetic::div_mod::lemma_fundamental_div_mod_converse;
use vstd::arithmetic::power2::{pow2, lemma_pow2_pos};
use vstd::bits::{lemma_u32_pow2_no_overflow, lemma_u32_shl_is_mul, lemma_u32_shr_is_div};
use crate::bitfield::{lemma_shl_wraps, signed, to_signed, to_unsigned, wrap};
use crate::instr::{AluOp, Condition};

verus! {

/// The result of an arithmetic operation. Sums, differences and left shifts
/// are taken modulo 2^32. A shift uses the low 5 bits of its second operand
/// as the amount. The arithmetic shift right divides the first operand, read
/// as two's complement, and rounds down.
pub open spec fn alu_spec(op: AluOp, a: u32, b: u32) -> u32 {
    match op {
        AluOp::Add => wrap(a + b),
        AluOp::Sub => wrap(a - b),
        AluOp::ShiftLeft => wrap(a * pow2((b % 32) as nat)),
        AluOp::Less => if signed(a) < signed(b) {
            1
        } else {
            0
        },
        AluOp::LessUnsigned => if a < b {
            1
        } else {
            0
        },
        AluOp::Xor => a ^ b,
        AluOp::ShiftRight => (a as int / pow2((b % 32) as nat) as int) as u32,
        AluOp::ShiftRightArithmetic => wrap(signed(a) / pow2((b % 32) as nat) as int),
        AluOp::Or => a | b,
        AluOp::And => a & b,
    }
}

/// Whether a branch condition holds of two register values.
pub open spec fn holds_spec(condition: Condition, a: u32, b: u32) -> bool {
    match condition {
        Condition::Equal => a == b,
        Condition::NotEqual => a != b,
        Condition::Less => signed(a) < signed(b),
        Condition::GreaterEqual => signed(a) >= signed(b),
        Condition::LessUnsigned => a < b,
        Condition::GreaterEqualUnsigned => a >= b,
    }
}

/// Shifting a signed number right by `shift` divides it by 2^`shift`,
/// rounding down.
pub proof fn lemma_shr_signed(x: i32, shift: u32)
    requires
        shift < 32,
    ensures
        (x >> shift) as int == x as int / (pow2(shift as nat) as int),
{
    let p: u32 = 1u32 << shift;
    let y: i32 = x >> shift;
    lemma_u32_pow2_no_overflow(shift as nat);
    lemma_u32_shl_is_mul(1u32, shift);
    lemma_pow2_pos(shift as nat);
    assert(p as int == pow2(shift as nat));
    assert(y * p <= x && x < y * p + p) by (bit_vector)
        requires
            shift < 32,
            p == 1u32 << shift,
            y == x >> shift,
    ;
    lemma_fundamental_div_mod_converse(x as int, p as int, y as int, x - y * p);
}

/// Applies an arithmetic operation to two operands.
pub fn alu(op: AluOp, a: u32, b: u32) -> (r: u32)
    ensures
        r == alu_spec(op, a, b),
{
    match op {
        AluOp::Add => a.wrapping_add(b),
        AluOp::Sub => a.wrapping_sub(b),
        AluOp::ShiftLeft => {
            proof {
                lemma_shl_wraps(a, b % 32);
            }
            a.wrapping_shl(b)
        },
        AluOp::Less => if to_signed(a) < to_signed(b) {
            1
        } else {
            0
        },
        AluOp::LessUnsigned => if a < b {
            1
        } else {
            0
        },
        AluOp::Xor => a ^ b,
        AluOp::ShiftRight => {
            proof {
                lemma_u32_shr_is_div(a, b % 32);
            }
            a.wrapping_shr(b)
        },
        AluOp::ShiftRightArithmetic => {
            let amount: u32 = b % 32;
            let x: i32 = to_signed(a);
            proof {
                lemma_shr_signed(x, amount);
            }
            to_unsigned(x >> amount)
        },
        AluOp::Or => a | b,
        AluOp::And => a & b,
    }
}

/// Tests a branch condition on two register values.
pub fn holds(condition: Condition, a: u32, b: u32) -> (r: bool)
    ensures
        r == holds_spec(condition, a, b),
{
    match condition {
        Condition::Equal => a == b,
        Condition::NotEqual => a != b,
        Condition::Less => to_signed(a) < to_signed(b),
        Condition::GreaterEqual => to_signed(a) >= to_signed(b),
        Condition::LessUnsigned => a < b,
        Condition::GreaterEqualUnsigned => a >= b,
    }
}

} // verus!
