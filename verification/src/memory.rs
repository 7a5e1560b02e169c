//! The memory of the machine: a flat buffer of bytes, addressed by 32-bit
//! offsets, read and written in little-endian order. Every access is checked
//! against the buffer's length.

use vstd::prelude::*;
use vstd::arithmetic::power2::lemma2_to64;
use crate::bitfield::{sign_ext, to_unsigned, twos, wrap};
use crate::instr::{LoadKind, StoreKind};

verus! {

/// Whether the `width` bytes from `address` on lie inside the memory.
pub open spec fn in_range(memory: Seq<u8>, address: u32, width: nat) -> bool {
    address + width <= memory.len()
}

/// The little-endian number in the two bytes at `address`.
pub open spec fn half_at(memory: Seq<u8>, address: int) -> int {
    memory[address] + 0x100 * memory[address + 1]
}

/// The little-endian number in the four bytes at `address`.
pub open spec fn word_at(memory: Seq<u8>, address: int) -> int {
    memory[address] + 0x100 * memory[address + 1] + 0x1_0000 * memory[address + 2] + 0x100_0000
        * memory[address + 3]
}

/// The memory with the lowest byte of `value` at `address`.
pub open spec fn with_byte(memory: Seq<u8>, address: int, value: u32) -> Seq<u8> {
    memory.update(address, (value % 0x100) as u8)
}

/// The memory with the low two bytes of `value` at `address`, lowest first.
pub open spec fn with_half(memory: Seq<u8>, address: int, value: u32) -> Seq<u8> {
    memory.update(address, (value % 0x100) as u8).update(
        address + 1,
        (value / 0x100 % 0x100) as u8,
    )
}

/// The memory with the four bytes of `value` at `address`, lowest first.
pub open spec fn with_word(memory: Seq<u8>, address: int, value: u32) -> Seq<u8> {
    memory.update(address, (value % 0x100) as u8).update(
        address + 1,
        (value / 0x100 % 0x100) as u8,
    ).update(address + 2, (value / 0x1_0000 % 0x100) as u8).update(
        address + 3,
        (value / 0x100_0000) as u8,
    )
}

/// How many bytes a load reads.
pub open spec fn load_width(kind: LoadKind) -> nat {
    match kind {
        LoadKind::Byte | LoadKind::ByteUnsigned => 1,
        LoadKind::Half | LoadKind::HalfUnsigned => 2,
        LoadKind::Word => 4,
    }
}

/// How many bytes a store writes.
pub open spec fn store_width(width: StoreKind) -> nat {
    match width {
        StoreKind::Byte => 1,
        StoreKind::Half => 2,
        StoreKind::Word => 4,
    }
}

/// What a load at `address` puts in its register: the little-endian number
/// there, read as two's complement by the signed kinds and then taken modulo
/// 2^32. `None` where a byte of it lies outside the memory.
pub open spec fn load_spec(kind: LoadKind, memory: Seq<u8>, address: u32) -> Option<u32> {
    if !in_range(memory, address, load_width(kind)) {
        None
    } else {
        Some(
            match kind {
                LoadKind::Byte => wrap(twos(memory[address as int] as int, 8)),
                LoadKind::Half => wrap(twos(half_at(memory, address as int), 16)),
                LoadKind::Word => word_at(memory, address as int) as u32,
                LoadKind::ByteUnsigned => memory[address as int] as u32,
                LoadKind::HalfUnsigned => half_at(memory, address as int) as u32,
            },
        )
    }
}

/// The memory after a store of `value` at `address`. `None` where a byte of
/// it lies outside the memory.
pub open spec fn store_spec(width: StoreKind, memory: Seq<u8>, address: u32, value: u32) -> Option<
    Seq<u8>,
> {
    if !in_range(memory, address, store_width(width)) {
        None
    } else {
        Some(
            match width {
                StoreKind::Byte => with_byte(memory, address as int, value),
                StoreKind::Half => with_half(memory, address as int, value),
                StoreKind::Word => with_word(memory, address as int, value),
            },
        )
    }
}

/// The index of the first of `width` bytes at `address`, if all of them lie
/// inside the memory.
fn locate(memory: &Vec<u8>, address: u32, width: usize) -> (r: Option<usize>)
    requires
        width <= 4,
    ensures
        r == if in_range(memory@, address, width as nat) {
            Some(address as usize)
        } else {
            None
        },
        memory@.len() <= usize::MAX,
{
    let length: usize = memory.len();
    let first: usize = address as usize;
    if length >= width && first <= length - width {
        Some(first)
    } else {
        None
    }
}

/// Reads the byte at `address`; `None` where it lies outside the memory.
pub fn read_byte(memory: &Vec<u8>, address: u32) -> (r: Option<u8>)
    ensures
        r == if in_range(memory@, address, 1) {
            Some(memory@[address as int])
        } else {
            None
        },
{
    match locate(memory, address, 1) {
        Some(first) => Some(memory[first]),
        None => None,
    }
}

/// Reads the two bytes at `address` as a little-endian number; `None` where
/// one of them lies outside the memory.
pub fn read_half(memory: &Vec<u8>, address: u32) -> (r: Option<u16>)
    ensures
        r == if in_range(memory@, address, 2) {
            Some(half_at(memory@, address as int) as u16)
        } else {
            None
        },
{
    match locate(memory, address, 2) {
        Some(first) => {
            let b0: u8 = memory[first];
            let b1: u8 = memory[first + 1];
            let value: u16 = (b0 as u16) | ((b1 as u16) << 8);
            assert(value == b0 + 0x100 * b1) by (bit_vector)
                requires
                    value == (b0 as u16) | ((b1 as u16) << 8),
            ;
            Some(value)
        },
        None => None,
    }
}

/// The little-endian number in the four bytes from index `first` on.
pub fn word_from(memory: &Vec<u8>, first: usize) -> (value: u32)
    requires
        first + 4 <= memory.len(),
    ensures
        value == word_at(memory@, first as int),
{
    let b0: u8 = memory[first];
    let b1: u8 = memory[first + 1];
    let b2: u8 = memory[first + 2];
    let b3: u8 = memory[first + 3];
    let value: u32 = (b0 as u32) | ((b1 as u32) << 8) | ((b2 as u32) << 16) | ((b3 as u32) << 24);
    assert(value == b0 + 0x100 * b1 + 0x1_0000 * b2 + 0x100_0000 * b3) by (bit_vector)
        requires
            value == (b0 as u32) | ((b1 as u32) << 8) | ((b2 as u32) << 16) | ((b3 as u32) << 24),
    ;
    value
}

/// Reads the four bytes at `address` as a little-endian number; `None` where
/// one of them lies outside the memory.
pub fn read_word(memory: &Vec<u8>, address: u32) -> (r: Option<u32>)
    ensures
        r == if in_range(memory@, address, 4) {
            Some(word_at(memory@, address as int) as u32)
        } else {
            None
        },
{
    match locate(memory, address, 4) {
        Some(first) => Some(word_from(memory, first)),
        None => None,
    }
}

/// The byte of `value` that is `index` bytes above its lowest.
fn byte_of(value: u32, index: u32) -> (r: u8)
    requires
        index < 4,
    ensures
        index == 0 ==> r == value % 0x100,
        index == 1 ==> r == value / 0x100 % 0x100,
        index == 2 ==> r == value / 0x1_0000 % 0x100,
        index == 3 ==> r == value / 0x100_0000,
{
    let shifted: u32 = value >> (8 * index);
    #[verifier::truncate]
    let r: u8 = shifted as u8;
    assert({
        &&& index == 0 ==> r == value % 0x100
        &&& index == 1 ==> r == value / 0x100 % 0x100
        &&& index == 2 ==> r == value / 0x1_0000 % 0x100
        &&& index == 3 ==> r == value / 0x100_0000
    }) by (bit_vector)
        requires
            index < 4,
            shifted == value >> (8 * index) as u32,
            r == shifted as u8,
    ;
    r
}

/// Writes the lowest byte of `value` at `address`. Returns `false`, and
/// leaves the memory as it is, where the byte lies outside the memory.
pub fn write_byte(memory: &mut Vec<u8>, address: u32, value: u32) -> (done: bool)
    ensures
        done == in_range(old(memory)@, address, 1),
        final(memory)@ == if done {
            with_byte(old(memory)@, address as int, value)
        } else {
            old(memory)@
        },
{
    match locate(memory, address, 1) {
        Some(first) => {
            memory[first] = byte_of(value, 0);
            true
        },
        None => false,
    }
}

/// Writes the low two bytes of `value` at `address`, lowest first. Returns
/// `false`, and leaves the memory as it is, where one of them lies outside
/// the memory.
pub fn write_half(memory: &mut Vec<u8>, address: u32, value: u32) -> (done: bool)
    ensures
        done == in_range(old(memory)@, address, 2),
        final(memory)@ == if done {
            with_half(old(memory)@, address as int, value)
        } else {
            old(memory)@
        },
{
    match locate(memory, address, 2) {
        Some(first) => {
            memory[first] = byte_of(value, 0);
            memory[first + 1] = byte_of(value, 1);
            true
        },
        None => false,
    }
}

/// Writes the four bytes of `value` at `address`, lowest first. Returns
/// `false`, and leaves the memory as it is, where one of them lies outside
/// the memory.
pub fn write_word(memory: &mut Vec<u8>, address: u32, value: u32) -> (done: bool)
    ensures
        done == in_range(old(memory)@, address, 4),
        final(memory)@ == if done {
            with_word(old(memory)@, address as int, value)
        } else {
            old(memory)@
        },
{
    match locate(memory, address, 4) {
        Some(first) => {
            memory[first] = byte_of(value, 0);
            memory[first + 1] = byte_of(value, 1);
            memory[first + 2] = byte_of(value, 2);
            memory[first + 3] = byte_of(value, 3);
            true
        },
        None => false,
    }
}

/// Loads from `address` what `kind` asks for, widened to 32 bits.
pub fn load(kind: LoadKind, memory: &Vec<u8>, address: u32) -> (r: Option<u32>)
    ensures
        r == load_spec(kind, memory@, address),
{
    proof {
        lemma2_to64();
    }
    match kind {
        LoadKind::Byte => match read_byte(memory, address) {
            Some(byte) => Some(to_unsigned(sign_ext(byte as u32, 8))),
            None => None,
        },
        LoadKind::Half => match read_half(memory, address) {
            Some(half) => Some(to_unsigned(sign_ext(half as u32, 16))),
            None => None,
        },
        LoadKind::Word => read_word(memory, address),
        LoadKind::ByteUnsigned => match read_byte(memory, address) {
            Some(byte) => Some(byte as u32),
            None => None,
        },
        LoadKind::HalfUnsigned => match read_half(memory, address) {
            Some(half) => Some(half as u32),
            None => None,
        },
    }
}

/// Stores the low bytes of `value` at `address`. Returns `false`, and leaves
/// the memory as it is, where one of them lies outside the memory.
pub fn store(width: StoreKind, memory: &mut Vec<u8>, address: u32, value: u32) -> (done: bool)
    ensures
        done == store_spec(width, old(memory)@, address, value).is_some(),
        final(memory)@ == match store_spec(width, old(memory)@, address, value) {
            Some(after) => after,
            None => old(memory)@,
        },
{
    match width {
        StoreKind::Byte => write_byte(memory, address, value),
        StoreKind::Half => write_half(memory, address, value),
        StoreKind::Word => write_word(memory, address, value),
    }
}

/// A copy of the `length` bytes at `address`; `None` where one of them lies
/// outside the memory.
pub fn read_bytes(memory: &Vec<u8>, address: u32, length: u32) -> (r: Option<Vec<u8>>)
    ensures
        match r {
            Some(bytes) => in_range(memory@, address, length as nat) && bytes@ == memory@.subrange(
                address as int,
                address + length,
            ),
            None => !in_range(memory@, address, length as nat),
        },
{
    let total: usize = memory.len();
    let first: usize = address as usize;
    let count: usize = length as usize;
    if total < count || first > total - count {
        return None;
    }
    let mut bytes: Vec<u8> = Vec::new();
    let mut i: usize = 0;
    while i < count
        invariant
            i <= count,
            first + count <= total,
            total == memory@.len(),
            bytes@ == memory@.subrange(first as int, first + i),
        decreases count - i,
    {
        bytes.push(memory[first + i]);
        i = i + 1;
    }
    Some(bytes)
}

} // verus!
