//! The scalar backend: every operation on a single element.
//!
//! This is both the fallback where no vector extension is present and the reference
//! that each vector lane must match; its results are stated with the same per-lane
//! functions that the vector types use.
use vstd::prelude::*;

use crate::lane;

verus! {

/// Wrapping addition of two 16-bit elements.
pub fn add_i16(a: i16, b: i16) -> (r: i16)
    ensures
        r == a.wrapping_add(b),
{
    a.wrapping_add(b)
}

/// Wrapping subtraction of two 16-bit elements.
pub fn sub_i16(a: i16, b: i16) -> (r: i16)
    ensures
        r == a.wrapping_sub(b),
{
    a.wrapping_sub(b)
}

/// Wrapping multiplication of two 16-bit elements.
pub fn mul_i16(a: i16, b: i16) -> (r: i16)
    ensures
        r == a.wrapping_mul(b),
{
    a.wrapping_mul(b)
}

/// The smaller of two 16-bit elements.
pub fn min_i16(a: i16, b: i16) -> (r: i16)
    ensures
        r == lane::min_i16(a, b),
{
    if a < b {
        a
    } else {
        b
    }
}

/// The larger of two 16-bit elements.
pub fn max_i16(a: i16, b: i16) -> (r: i16)
    ensures
        r == lane::max_i16(a, b),
{
    if a > b {
        a
    } else {
        b
    }
}

/// Absolute value of a 16-bit element; the minimum value stays as it is.
pub fn abs_i16(a: i16) -> (r: i16)
    ensures
        r == lane::abs_i16(a),
{
    if a == i16::MIN {
        a
    } else if a < 0 {
        -a
    } else {
        a
    }
}

/// Equality of two 16-bit elements, as a mask.
pub fn eq_i16(a: i16, b: i16) -> (r: i16)
    ensures
        r == lane::mask_i16(a == b),
{
    proof {
        lane::lemma_bits_i16(0);
    }
    if a == b {
        u16::MAX as i16
    } else {
        0
    }
}

/// Inequality of two 16-bit elements, as a mask.
pub fn neq_i16(a: i16, b: i16) -> (r: i16)
    ensures
        r == lane::mask_i16(a != b),
{
    proof {
        lane::lemma_bits_i16(0);
    }
    if a != b {
        u16::MAX as i16
    } else {
        0
    }
}

/// `a < b` on 16-bit elements, as a mask.
pub fn lt_i16(a: i16, b: i16) -> (r: i16)
    ensures
        r == lane::mask_i16(a < b),
{
    proof {
        lane::lemma_bits_i16(0);
    }
    if a < b {
        u16::MAX as i16
    } else {
        0
    }
}

/// `a <= b` on 16-bit elements, as a mask.
pub fn lte_i16(a: i16, b: i16) -> (r: i16)
    ensures
        r == lane::mask_i16(a <= b),
{
    proof {
        lane::lemma_bits_i16(0);
    }
    if a <= b {
        u16::MAX as i16
    } else {
        0
    }
}

/// `a > b` on 16-bit elements, as a mask.
pub fn gt_i16(a: i16, b: i16) -> (r: i16)
    ensures
        r == lane::mask_i16(a > b),
{
    proof {
        lane::lemma_bits_i16(0);
    }
    if a > b {
        u16::MAX as i16
    } else {
        0
    }
}

/// `a >= b` on 16-bit elements, as a mask.
pub fn gte_i16(a: i16, b: i16) -> (r: i16)
    ensures
        r == lane::mask_i16(a >= b),
{
    proof {
        lane::lemma_bits_i16(0);
    }
    if a >= b {
        u16::MAX as i16
    } else {
        0
    }
}

/// `a` where `mask` is zero, `b` otherwise.
pub fn blendv_i16(a: i16, b: i16, mask: i16) -> (r: i16)
    ensures
        r == (if mask == 0 { a } else { b }),
{
    if mask == 0 {
        a
    } else {
        b
    }
}

/// Shifts the element's bit pattern left by `rhs`, filling with zeros.
pub fn shl_i16(a: i16, rhs: i32) -> (r: i16)
    requires
        0 <= rhs < 16,
    ensures
        r == lane::shl_i16(a, rhs as u32),
{
    ((a as u16) << (rhs as u32)) as i16
}

/// Shifts the element's bit pattern right by `rhs`, filling with zeros.
pub fn shr_i16(a: i16, rhs: i32) -> (r: i16)
    requires
        0 <= rhs < 16,
    ensures
        r == lane::shr_i16(a, rhs as u32),
{
    ((a as u16) >> (rhs as u32)) as i16
}

/// `shl_i16` by an amount fixed when the program is built.
pub fn shl_const_i16<const BY: u32>(a: i16) -> (r: i16)
    requires
        BY < 16,
    ensures
        r == lane::shl_i16(a, BY),
{
    ((a as u16) << BY) as i16
}

/// `shr_i16` by an amount fixed when the program is built.
pub fn shr_const_i16<const BY: u32>(a: i16) -> (r: i16)
    requires
        BY < 16,
    ensures
        r == lane::shr_i16(a, BY),
{
    ((a as u16) >> BY) as i16
}

/// Sign-extends the element; a single lane has no second half, which is zero.
pub fn extend_i16(val: i16) -> (r: (i32, i32))
    ensures
        r == (val as i32, 0i32),
{
    (val as i32, 0)
}

/// Zero-extends the element's bit pattern; a single lane has no second half, which is
/// zero.
pub fn unsigned_extend_i16(val: i16) -> (r: (i32, i32))
    ensures
        r == (val as u16 as i32, 0i32),
{
    (val as u16 as i32, 0)
}

/// The element with every bit clear.
pub fn zeroes_i16() -> (r: i16)
    ensures
        r == 0,
{
    0
}

/// The element `val` itself: a single lane to broadcast into.
pub fn set1_i16(val: i16) -> (r: i16)
    ensures
        r == val,
{
    val
}

/// Wrapping addition of two 32-bit elements.
pub fn add_i32(a: i32, b: i32) -> (r: i32)
    ensures
        r == a.wrapping_add(b),
{
    a.wrapping_add(b)
}

/// Wrapping subtraction of two 32-bit elements.
pub fn sub_i32(a: i32, b: i32) -> (r: i32)
    ensures
        r == a.wrapping_sub(b),
{
    a.wrapping_sub(b)
}

/// Wrapping multiplication of two 32-bit elements.
pub fn mul_i32(a: i32, b: i32) -> (r: i32)
    ensures
        r == a.wrapping_mul(b),
{
    a.wrapping_mul(b)
}

/// The smaller of two 32-bit elements.
pub fn min_i32(a: i32, b: i32) -> (r: i32)
    ensures
        r == lane::min_i32(a, b),
{
    if a < b {
        a
    } else {
        b
    }
}

/// The larger of two 32-bit elements.
pub fn max_i32(a: i32, b: i32) -> (r: i32)
    ensures
        r == lane::max_i32(a, b),
{
    if a > b {
        a
    } else {
        b
    }
}

/// Absolute value of a 32-bit element; the minimum value stays as it is.
pub fn abs_i32(a: i32) -> (r: i32)
    ensures
        r == lane::abs_i32(a),
{
    if a == i32::MIN {
        a
    } else if a < 0 {
        -a
    } else {
        a
    }
}

/// Equality of two 32-bit elements, as a mask.
pub fn eq_i32(a: i32, b: i32) -> (r: i32)
    ensures
        r == lane::mask_i32(a == b),
{
    proof {
        lane::lemma_bits_i32(0);
    }
    if a == b {
        u32::MAX as i32
    } else {
        0
    }
}

/// Inequality of two 32-bit elements, as a mask.
pub fn neq_i32(a: i32, b: i32) -> (r: i32)
    ensures
        r == lane::mask_i32(a != b),
{
    proof {
        lane::lemma_bits_i32(0);
    }
    if a != b {
        u32::MAX as i32
    } else {
        0
    }
}

/// `a < b` on 32-bit elements, as a mask.
pub fn lt_i32(a: i32, b: i32) -> (r: i32)
    ensures
        r == lane::mask_i32(a < b),
{
    proof {
        lane::lemma_bits_i32(0);
    }
    if a < b {
        u32::MAX as i32
    } else {
        0
    }
}

/// `a <= b` on 32-bit elements, as a mask.
pub fn lte_i32(a: i32, b: i32) -> (r: i32)
    ensures
        r == lane::mask_i32(a <= b),
{
    proof {
        lane::lemma_bits_i32(0);
    }
    if a <= b {
        u32::MAX as i32
    } else {
        0
    }
}

/// `a > b` on 32-bit elements, as a mask.
pub fn gt_i32(a: i32, b: i32) -> (r: i32)
    ensures
        r == lane::mask_i32(a > b),
{
    proof {
        lane::lemma_bits_i32(0);
    }
    if a > b {
        u32::MAX as i32
    } else {
        0
    }
}

/// `a >= b` on 32-bit elements, as a mask.
pub fn gte_i32(a: i32, b: i32) -> (r: i32)
    ensures
        r == lane::mask_i32(a >= b),
{
    proof {
        lane::lemma_bits_i32(0);
    }
    if a >= b {
        u32::MAX as i32
    } else {
        0
    }
}

/// `a` where `mask` is zero, `b` otherwise.
pub fn blendv_i32(a: i32, b: i32, mask: i32) -> (r: i32)
    ensures
        r == (if mask == 0 { a } else { b }),
{
    if mask == 0 {
        a
    } else {
        b
    }
}

/// Shifts the element's bit pattern left by `rhs`, filling with zeros.
pub fn shl_i32(a: i32, rhs: i32) -> (r: i32)
    requires
        0 <= rhs < 32,
    ensures
        r == lane::shl_i32(a, rhs as u32),
{
    ((a as u32) << (rhs as u32)) as i32
}

/// Shifts the element's bit pattern right by `rhs`, filling with zeros.
pub fn shr_i32(a: i32, rhs: i32) -> (r: i32)
    requires
        0 <= rhs < 32,
    ensures
        r == lane::shr_i32(a, rhs as u32),
{
    ((a as u32) >> (rhs as u32)) as i32
}

/// `shl_i32` by an amount fixed when the program is built.
pub fn shl_const_i32<const BY: u32>(a: i32) -> (r: i32)
    requires
        BY < 32,
    ensures
        r == lane::shl_i32(a, BY),
{
    ((a as u32) << BY) as i32
}

/// `shr_i32` by an amount fixed when the program is built.
pub fn shr_const_i32<const BY: u32>(a: i32) -> (r: i32)
    requires
        BY < 32,
    ensures
        r == lane::shr_i32(a, BY),
{
    ((a as u32) >> BY) as i32
}

/// Sign-extends the element; a single lane has no second half, which is zero.
pub fn extend_i32(val: i32) -> (r: (i64, i64))
    ensures
        r == (val as i64, 0i64),
{
    (val as i64, 0)
}

/// Zero-extends the element's bit pattern; a single lane has no second half, which is
/// zero.
pub fn unsigned_extend_i32(val: i32) -> (r: (i64, i64))
    ensures
        r == (val as u32 as i64, 0i64),
{
    (val as u32 as i64, 0)
}

/// The element with every bit clear.
pub fn zeroes_i32() -> (r: i32)
    ensures
        r == 0,
{
    0
}

/// The element `val` itself: a single lane to broadcast into.
pub fn set1_i32(val: i32) -> (r: i32)
    ensures
        r == val,
{
    val
}

/// The bit pattern of a 32-bit element in a 64-bit binary carrier (sign-extended).
pub fn bitcast_binary_from_i32(a: i32) -> (r: u64)
    ensures
        r == a as u64,
{
    a as u64
}

/// The 32-bit element held in the low bits of a 64-bit binary carrier.
pub fn bitcast_i32_from_binary(a: u64) -> (r: i32)
    ensures
        r == a as i32,
{
    a as i32
}

/// The bit pattern of a 64-bit element in a 64-bit binary carrier (sign-extended).
pub fn bitcast_binary_from_i64(a: i64) -> (r: u64)
    ensures
        r == a as u64,
{
    a as u64
}

/// The 64-bit element held in the low bits of a 64-bit binary carrier.
pub fn bitcast_i64_from_binary(a: u64) -> (r: i64)
    ensures
        r == a as i64,
{
    a as i64
}

} // verus!
