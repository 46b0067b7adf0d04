//! What one lane of each element type must hold after each operation.
//!
//! The scalar backend computes exactly these values on single elements, and every
//! vector type states its operations lane by lane in terms of them.
use vstd::prelude::*;

verus! {

/// The sum `f(0) + f(1) + ... + f(n - 1)`.
pub open spec fn sum_of(f: spec_fn(int) -> int, n: int) -> int
    decreases n,
{
    if n <= 0 {
        0
    } else {
        sum_of(f, n - 1) + f(n - 1)
    }
}

/// The 8-bit lane value of a comparison outcome: all bits set when true, none when false.
pub open spec fn mask_i8(c: bool) -> i8 {
    if c {
        -1i8
    } else {
        0i8
    }
}

/// A 8-bit lane that a comparison can produce.
pub open spec fn is_mask_i8(x: i8) -> bool {
    x == 0 || x == -1
}

/// Every lane is all zeros or all ones, as a comparison leaves it.
pub open spec fn all_masks_i8(s: Seq<i8>) -> bool {
    forall|i: int| 0 <= i < s.len() ==> is_mask_i8(#[trigger] s[i])
}

/// Bitwise complement of a 8-bit lane.
pub open spec fn not_i8(x: i8) -> i8 {
    !x
}

/// Two's-complement absolute value; the minimum value has no positive counterpart and
/// stays as it is.
pub open spec fn abs_i8(x: i8) -> i8 {
    if x == i8::MIN {
        x
    } else if x < 0 {
        (-x) as i8
    } else {
        x
    }
}

/// The smaller of two 8-bit lanes.
pub open spec fn min_i8(a: i8, b: i8) -> i8 {
    if a < b {
        a
    } else {
        b
    }
}

/// The larger of two 8-bit lanes.
pub open spec fn max_i8(a: i8, b: i8) -> i8 {
    if a > b {
        a
    } else {
        b
    }
}

/// Logical left shift of a 8-bit lane's bit pattern.
pub open spec fn shl_i8(x: i8, n: u32) -> i8 {
    ((x as u8) << n) as i8
}

/// Logical (zero-filling) right shift of a 8-bit lane's bit pattern.
pub open spec fn shr_i8(x: i8, n: u32) -> i8 {
    ((x as u8) >> n) as i8
}

/// The bit facts on 8-bit lanes that the composed operations rest on.
pub proof fn lemma_bits_i8(x: i8)
    by (bit_vector)
    ensures
        -1i8 ^ x == !x,
        !(0i8) == -1i8,
        !(-1i8) == 0i8,
        x ^ 0i8 == x,
        (x ^ -1i8) as int == -1 - x,
        0i8 & x == 0i8,
        -1i8 & x == x,
        0i8 | x == x,
        x | 0i8 == x,
        -1i8 | x == -1i8,
        x | -1i8 == -1i8,
        u8::MAX as i8 == -1i8,
{
}

/// The 16-bit lane value of a comparison outcome: all bits set when true, none when false.
pub open spec fn mask_i16(c: bool) -> i16 {
    if c {
        -1i16
    } else {
        0i16
    }
}

/// A 16-bit lane that a comparison can produce.
pub open spec fn is_mask_i16(x: i16) -> bool {
    x == 0 || x == -1
}

/// Every lane is all zeros or all ones, as a comparison leaves it.
pub open spec fn all_masks_i16(s: Seq<i16>) -> bool {
    forall|i: int| 0 <= i < s.len() ==> is_mask_i16(#[trigger] s[i])
}

/// Bitwise complement of a 16-bit lane.
pub open spec fn not_i16(x: i16) -> i16 {
    !x
}

/// Two's-complement absolute value; the minimum value has no positive counterpart and
/// stays as it is.
pub open spec fn abs_i16(x: i16) -> i16 {
    if x == i16::MIN {
        x
    } else if x < 0 {
        (-x) as i16
    } else {
        x
    }
}

/// The smaller of two 16-bit lanes.
pub open spec fn min_i16(a: i16, b: i16) -> i16 {
    if a < b {
        a
    } else {
        b
    }
}

/// The larger of two 16-bit lanes.
pub open spec fn max_i16(a: i16, b: i16) -> i16 {
    if a > b {
        a
    } else {
        b
    }
}

/// Logical left shift of a 16-bit lane's bit pattern.
pub open spec fn shl_i16(x: i16, n: u32) -> i16 {
    ((x as u16) << n) as i16
}

/// Logical (zero-filling) right shift of a 16-bit lane's bit pattern.
pub open spec fn shr_i16(x: i16, n: u32) -> i16 {
    ((x as u16) >> n) as i16
}

/// The bit facts on 16-bit lanes that the composed operations rest on.
pub proof fn lemma_bits_i16(x: i16)
    by (bit_vector)
    ensures
        -1i16 ^ x == !x,
        !(0i16) == -1i16,
        !(-1i16) == 0i16,
        x ^ 0i16 == x,
        (x ^ -1i16) as int == -1 - x,
        0i16 & x == 0i16,
        -1i16 & x == x,
        0i16 | x == x,
        x | 0i16 == x,
        -1i16 | x == -1i16,
        x | -1i16 == -1i16,
        u16::MAX as i16 == -1i16,
{
}

/// The 32-bit lane value of a comparison outcome: all bits set when true, none when false.
pub open spec fn mask_i32(c: bool) -> i32 {
    if c {
        -1i32
    } else {
        0i32
    }
}

/// A 32-bit lane that a comparison can produce.
pub open spec fn is_mask_i32(x: i32) -> bool {
    x == 0 || x == -1
}

/// Every lane is all zeros or all ones, as a comparison leaves it.
pub open spec fn all_masks_i32(s: Seq<i32>) -> bool {
    forall|i: int| 0 <= i < s.len() ==> is_mask_i32(#[trigger] s[i])
}

/// Bitwise complement of a 32-bit lane.
pub open spec fn not_i32(x: i32) -> i32 {
    !x
}

/// Two's-complement absolute value; the minimum value has no positive counterpart and
/// stays as it is.
pub open spec fn abs_i32(x: i32) -> i32 {
    if x == i32::MIN {
        x
    } else if x < 0 {
        (-x) as i32
    } else {
        x
    }
}

/// The smaller of two 32-bit lanes.
pub open spec fn min_i32(a: i32, b: i32) -> i32 {
    if a < b {
        a
    } else {
        b
    }
}

/// The larger of two 32-bit lanes.
pub open spec fn max_i32(a: i32, b: i32) -> i32 {
    if a > b {
        a
    } else {
        b
    }
}

/// Logical left shift of a 32-bit lane's bit pattern.
pub open spec fn shl_i32(x: i32, n: u32) -> i32 {
    ((x as u32) << n) as i32
}

/// Logical (zero-filling) right shift of a 32-bit lane's bit pattern.
pub open spec fn shr_i32(x: i32, n: u32) -> i32 {
    ((x as u32) >> n) as i32
}

/// The bit facts on 32-bit lanes that the composed operations rest on.
pub proof fn lemma_bits_i32(x: i32)
    by (bit_vector)
    ensures
        -1i32 ^ x == !x,
        !(0i32) == -1i32,
        !(-1i32) == 0i32,
        x ^ 0i32 == x,
        (x ^ -1i32) as int == -1 - x,
        0i32 & x == 0i32,
        -1i32 & x == x,
        0i32 | x == x,
        x | 0i32 == x,
        -1i32 | x == -1i32,
        x | -1i32 == -1i32,
        u32::MAX as i32 == -1i32,
{
}

/// The 64-bit lane value of a comparison outcome: all bits set when true, none when false.
pub open spec fn mask_i64(c: bool) -> i64 {
    if c {
        -1i64
    } else {
        0i64
    }
}

/// A 64-bit lane that a comparison can produce.
pub open spec fn is_mask_i64(x: i64) -> bool {
    x == 0 || x == -1
}

/// Every lane is all zeros or all ones, as a comparison leaves it.
pub open spec fn all_masks_i64(s: Seq<i64>) -> bool {
    forall|i: int| 0 <= i < s.len() ==> is_mask_i64(#[trigger] s[i])
}

/// Bitwise complement of a 64-bit lane.
pub open spec fn not_i64(x: i64) -> i64 {
    !x
}

/// Two's-complement absolute value; the minimum value has no positive counterpart and
/// stays as it is.
pub open spec fn abs_i64(x: i64) -> i64 {
    if x == i64::MIN {
        x
    } else if x < 0 {
        (-x) as i64
    } else {
        x
    }
}

/// The smaller of two 64-bit lanes.
pub open spec fn min_i64(a: i64, b: i64) -> i64 {
    if a < b {
        a
    } else {
        b
    }
}

/// The larger of two 64-bit lanes.
pub open spec fn max_i64(a: i64, b: i64) -> i64 {
    if a > b {
        a
    } else {
        b
    }
}

/// Logical left shift of a 64-bit lane's bit pattern.
pub open spec fn shl_i64(x: i64, n: u32) -> i64 {
    ((x as u64) << n) as i64
}

/// Logical (zero-filling) right shift of a 64-bit lane's bit pattern.
pub open spec fn shr_i64(x: i64, n: u32) -> i64 {
    ((x as u64) >> n) as i64
}

/// The bit facts on 64-bit lanes that the composed operations rest on.
pub proof fn lemma_bits_i64(x: i64)
    by (bit_vector)
    ensures
        -1i64 ^ x == !x,
        !(0i64) == -1i64,
        !(-1i64) == 0i64,
        x ^ 0i64 == x,
        (x ^ -1i64) as int == -1 - x,
        0i64 & x == 0i64,
        -1i64 & x == x,
        0i64 | x == x,
        x | 0i64 == x,
        -1i64 | x == -1i64,
        x | -1i64 == -1i64,
        u64::MAX as i64 == -1i64,
{
}

/// Lane choice by the mask lane's top bit: `b` where it is set, `a` where it is clear.
pub open spec fn select_i8(m: i8, a: i8, b: i8) -> i8 {
    if m < 0 {
        b
    } else {
        a
    }
}


/// Lane choice by the mask lane's top bit: `b` where it is set, `a` where it is clear.
pub open spec fn select_i32(m: i32, a: i32, b: i32) -> i32 {
    if m < 0 {
        b
    } else {
        a
    }
}


/// Lane choice by the mask lane's top bit: `b` where it is set, `a` where it is clear.
pub open spec fn select_i64(m: i64, a: i64, b: i64) -> i64 {
    if m < 0 {
        b
    } else {
        a
    }
}


/// Bitwise complement of a 32-bit floating-point lane's bit pattern.
pub open spec fn not_u32(x: u32) -> u32 {
    !x
}

/// A 32-bit floating-point lane's bit pattern with the sign bit cleared.
pub open spec fn clear_sign_u32(x: u32) -> u32 {
    x & !0x8000_0000u32
}

/// The sign bit of a 32-bit floating-point lane's bit pattern.
pub open spec fn sign_bit_u32(x: u32) -> bool {
    x >= 0x8000_0000
}

/// Lane choice by the mask lane's sign bit: `b` where it is set, `a` where it is clear.
pub open spec fn select_u32(m: u32, a: u32, b: u32) -> u32 {
    if sign_bit_u32(m) {
        b
    } else {
        a
    }
}

/// The bit facts on 32-bit floating-point lanes that the composed operations rest on.
pub proof fn lemma_bits_u32(x: u32, y: i32)
    by (bit_vector)
    ensures
        (-1i32) as u32 ^ x == !x,
        !(0x8000_0000u32) & x == x & !0x8000_0000u32,
        (x as i32) as u32 == x,
        (y as u32) as i32 == y,
{
}

/// Bitwise complement of a 64-bit floating-point lane's bit pattern.
pub open spec fn not_u64(x: u64) -> u64 {
    !x
}

/// A 64-bit floating-point lane's bit pattern with the sign bit cleared.
pub open spec fn clear_sign_u64(x: u64) -> u64 {
    x & !0x8000_0000_0000_0000u64
}

/// The sign bit of a 64-bit floating-point lane's bit pattern.
pub open spec fn sign_bit_u64(x: u64) -> bool {
    x >= 0x8000_0000_0000_0000
}

/// Lane choice by the mask lane's sign bit: `b` where it is set, `a` where it is clear.
pub open spec fn select_u64(m: u64, a: u64, b: u64) -> u64 {
    if sign_bit_u64(m) {
        b
    } else {
        a
    }
}

/// The bit facts on 64-bit floating-point lanes that the composed operations rest on.
pub proof fn lemma_bits_u64(x: u64, y: i64)
    by (bit_vector)
    ensures
        (-1i64) as u64 ^ x == !x,
        !(0x8000_0000_0000_0000u64) & x == x & !0x8000_0000_0000_0000u64,
        (x as i64) as u64 == x,
        (y as u64) as i64 == y,
{
}

/// The 16-bit lane made of two adjacent 8-bit lanes of the same register, `lo` first.
pub open spec fn join_i8(lo: i8, hi: i8) -> i16 {
    ((lo as u8 as u16) | ((hi as u8 as u16) << 8u32)) as i16
}

/// The first (low) 8-bit lane inside a 16-bit lane.
pub open spec fn low_byte(w: i16) -> i8 {
    w as i8
}

/// The second (high) 8-bit lane inside a 16-bit lane.
pub open spec fn high_byte(w: i16) -> i8 {
    ((w as u16) >> 8u32) as i8
}

} // verus!
