//! Bit-field helpers used throughout instruction decoding, and the two
//! readings (unsigned and two's complement) of a 32-bit pattern.

use vstd::prelude::*;
use vstd::arithmetic::power2::{lemma_pow2_pos, lemma_pow2_unfold, pow2};
use vstd::bits::{lemma_u32_shl_is_mul, lemma_u32_shr_is_div, lemma_u32_pow2_no_overflow, lemma_u32_low_bits_mask_is_mod, low_bits_mask};
use vstd::wrapping::i32_specs;

verus! {

/// Index of a register in the register file.
pub type Reg = usize;

/// Two's-complement reading of a 32-bit pattern.
pub open spec fn signed(x: u32) -> int {
    if x < 0x8000_0000 {
        x as int
    } else {
        x as int - 0x1_0000_0000
    }
}

/// The 32-bit pattern that is congruent to `i` modulo 2^32.
pub open spec fn wrap(i: int) -> u32 {
    (i % 0x1_0000_0000) as u32
}

/// The `width`-bit field of `word` that starts at bit `low`, as a number.
pub open spec fn field(word: u32, low: nat, width: nat) -> int {
    (word as int / pow2(low) as int) % (pow2(width) as int)
}

/// The number that the pattern `value` of `bits` bits stands for in two's
/// complement.
pub open spec fn twos(value: int, bits: nat) -> int {
    if value < pow2((bits - 1) as nat) {
        value
    } else {
        value - pow2(bits)
    }
}

/// What [`sign_ext`] returns: `value`, read as a two's-complement number of
/// `bits` bits.
pub open spec fn sign_ext_spec(value: u32, bits: u32) -> int {
    twos(value as int, bits as nat)
}

/// What [`bits`] returns, as arithmetic: the field of `end - start + 1` bits
/// of `value` at bit `position`, moved up to bit `start`; what does not fit in
/// 32 bits is lost.
pub open spec fn bits_spec(start: u32, end: u32, value: u32, position: u32) -> int {
    (field(value, position as nat, (end - start + 1) as nat) * pow2(start as nat)) % 0x1_0000_0000
}

/// The signed reading of a register value.
pub fn to_signed(x: u32) -> (r: i32)
    ensures
        r as int == signed(x),
{
    assert(x < 0x8000_0000u32 ==> (x as i32) as int == x as int) by (bit_vector);
    assert(x >= 0x8000_0000u32 ==> (x as i32) as int == x as int - 0x1_0000_0000) by (bit_vector);
    #[verifier::truncate]
    (x as i32)
}

/// The 32-bit pattern of a signed value.
pub fn to_unsigned(x: i32) -> (r: u32)
    ensures
        r == wrap(x as int),
        signed(r) == x,
{
    assert(x >= 0i32 ==> (x as u32) as int == x as int) by (bit_vector);
    assert(x < 0i32 ==> (x as u32) as int == x as int + 0x1_0000_0000) by (bit_vector);
    #[verifier::truncate]
    (x as u32)
}

/// The register index held in the low five bits of `reg`.
pub fn reg_decode(reg: u32) -> (r: Reg)
    ensures
        r as int == reg as int % 32,
        r < 32,
{
    let low: u32 = reg & 0b11111;
    assert(reg & 0b11111 == reg % 32) by (bit_vector);
    low as usize
}

/// Sign extension: reads the `bits`-bit field `value` as a two's-complement
/// number.
pub fn sign_ext(value: u32, bits: u32) -> (r: i32)
    requires
        1 <= bits <= 32,
        (value as int) < pow2(bits as nat),
    ensures
        r as int == sign_ext_spec(value, bits),
{
    let shift: u32 = bits - 1;
    let mask: u32 = 1u32 << shift;
    let flipped: u32 = value ^ mask;
    #[verifier::truncate]
    let a: i32 = flipped as i32;
    #[verifier::truncate]
    let m: i32 = mask as i32;
    let r: i32 = a.wrapping_sub(m);
    proof {
        lemma_u32_pow2_no_overflow(shift as nat);
        lemma_u32_shl_is_mul(1u32, shift);
        lemma_pow2_unfold(bits as nat);
        assert(mask as int == pow2(shift as nat));
        assert(pow2(bits as nat) == 2 * mask);
        assert(value < mask ==> r as int == value as int) by (bit_vector)
            requires
                shift < 32,
                mask == 1u32 << shift,
                (value as int) < 2 * mask,
                a == (value ^ mask) as i32,
                m == mask as i32,
                r == i32_specs::wrapping_sub(a, m),
        ;
        assert(value >= mask ==> r as int == value as int - 2 * mask) by (bit_vector)
            requires
                shift < 32,
                mask == 1u32 << shift,
                (value as int) < 2 * mask,
                a == (value ^ mask) as i32,
                m == mask as i32,
                r == i32_specs::wrapping_sub(a, m),
        ;
    }
    r
}

/// Shifting left by `shift` multiplies by 2^`shift` modulo 2^32.
pub proof fn lemma_shl_wraps(x: u32, shift: u32)
    requires
        shift < 32,
    ensures
        (x << shift) as int == (x as int * pow2(shift as nat)) % 0x1_0000_0000,
{
    let p: u32 = 1u32 << shift;
    lemma_u32_pow2_no_overflow(shift as nat);
    lemma_u32_shl_is_mul(1u32, shift);
    assert(p as int == pow2(shift as nat));
    assert((x << shift) as int == (x as int * p as int) % 0x1_0000_0000) by (bit_vector)
        requires
            shift < 32,
            p == 1u32 << shift,
    ;
}

/// A field of `width` bits is a number below 2^`width`.
pub proof fn lemma_field_bound(word: u32, low: nat, width: nat)
    ensures
        0 <= field(word, low, width) < pow2(width),
{
    lemma_pow2_pos(low);
    lemma_pow2_pos(width);
}

/// Field splicing: takes the field of `end - start + 1` bits of `value` that
/// starts at bit `position`, and places it at bit `start` of the result.
pub fn bits(start: u32, end: u32, value: u32, position: u32) -> (r: u32)
    requires
        start <= end,
        end - start < 31,
        start < 32,
        position < 32,
    ensures
        r as int == bits_spec(start, end, value, position),
{
    let width: u32 = end - start + 1;
    let top: u32 = 1u32 << width;
    proof {
        lemma_u32_pow2_no_overflow(width as nat);
        lemma_u32_shl_is_mul(1u32, width);
    }
    let mask: u32 = top - 1;
    let picked: u32 = (value >> position) & mask;
    proof {
        lemma_u32_shr_is_div(value, position);
        lemma_u32_low_bits_mask_is_mod(value >> position, width as nat);
        assert(mask as nat == low_bits_mask(width as nat));
        assert(picked as int == field(value, position as nat, width as nat));
        lemma_shl_wraps(picked, start);
    }
    picked << start
}

} // verus!
