//! Laws that relate the operations to one another and to fixed-width arithmetic.
use vstd::arithmetic::div_mod::{lemma_fundamental_div_mod, lemma_mod_multiples_basic};
use vstd::prelude::*;

use crate::f32x4::F32x4;
use crate::f64x2::F64x2;
use crate::i16x8::I16x8;
use crate::i32x4::I32x4;
use crate::i64x2::I64x2;
use crate::i8x16::I8x16;
use crate::lane;

verus! {

/// Wrapping addition, subtraction and multiplication of 8-bit lanes are exact arithmetic
/// modulo `2^8`: each result differs from the true sum, difference or product by a
/// multiple of `2^8`.
pub proof fn law_wrap_around_i8(a: i8, b: i8)
    ensures
        (a.wrapping_add(b) - (a + b)) % 0x100 == 0,
        (a.wrapping_sub(b) - (a - b)) % 0x100 == 0,
        (a.wrapping_mul(b) - a * b) % 0x100 == 0,
{
    let s = a + b;
    let k: int = if s > i8::MAX { -1 } else if s < i8::MIN { 1 } else { 0 };
    assert(a.wrapping_add(b) - s == k * 0x100);
    lemma_mod_multiples_basic(k, 0x100);
    let d = a - b;
    let k: int = if d > i8::MAX { -1 } else if d < i8::MIN { 1 } else { 0 };
    assert(a.wrapping_sub(b) - d == k * 0x100);
    lemma_mod_multiples_basic(k, 0x100);
    let p = a * b;
    lemma_fundamental_div_mod(p, 0x100);
    let k: int = if p % 0x100 > i8::MAX {
        -(p / 0x100) - 1
    } else {
        -(p / 0x100)
    };
    assert(a.wrapping_mul(b) - p == k * 0x100);
    lemma_mod_multiples_basic(k, 0x100);
}

/// Every lane a comparison produces is all zeros or all ones: as an unsigned bit pattern,
/// `0` or `u8::MAX`.
pub proof fn law_mask_bits_i8(c: bool)
    ensures
        lane::is_mask_i8(lane::mask_i8(c)),
        lane::mask_i8(c) as u8 == 0 || lane::mask_i8(c) as u8 == u8::MAX,
{
    assert((0i8) as u8 == 0 && (-1i8) as u8 == u8::MAX) by (bit_vector);
}

/// Less-or-equal is the complement of greater-than, and greater-or-equal is the union of
/// greater-than and equality, lane for lane: `cmp_lte(a, b) == bit_not(cmp_gt(a, b))` and
/// `cmp_gte(a, b) == bit_or(cmp_gt(a, b), cmp_eq(a, b))`.
pub proof fn law_de_morgan_i8(a: I8x16, b: I8x16)
    ensures
        Seq::new(16, |i: int| lane::mask_i8(a@[i] <= b@[i])) == Seq::new(
            16,
            |i: int| lane::not_i8(lane::mask_i8(a@[i] > b@[i])),
        ),
        Seq::new(16, |i: int| lane::mask_i8(a@[i] >= b@[i])) == Seq::new(
            16,
            |i: int| lane::mask_i8(a@[i] > b@[i]) | lane::mask_i8(a@[i] == b@[i]),
        ),
{
    lane::lemma_bits_i8(0);
    lane::lemma_bits_i8(-1i8);
    assert(Seq::new(16, |i: int| lane::mask_i8(a@[i] <= b@[i])) =~= Seq::new(
        16,
        |i: int| lane::not_i8(lane::mask_i8(a@[i] > b@[i])),
    ));
    assert(Seq::new(16, |i: int| lane::mask_i8(a@[i] >= b@[i])) =~= Seq::new(
        16,
        |i: int| lane::mask_i8(a@[i] > b@[i]) | lane::mask_i8(a@[i] == b@[i]),
    ));
}

/// Storing a value over the front of a slice and loading from the front again gives the
/// value back: `load_from_slice` undoes `copy_to_slice`.
pub proof fn law_store_load_i8(v: I8x16, dst: Seq<i8>)
    requires
        dst.len() >= 16,
    ensures
        (v@ + dst.subrange(16, dst.len() as int)).subrange(0, 16) == v@,
{
    v.lemma_lane_count();
    assert((v@ + dst.subrange(16, dst.len() as int)).subrange(0, 16) =~= v@);
}

/// Wrapping addition, subtraction and multiplication of 16-bit lanes are exact arithmetic
/// modulo `2^16`: each result differs from the true sum, difference or product by a
/// multiple of `2^16`.
pub proof fn law_wrap_around_i16(a: i16, b: i16)
    ensures
        (a.wrapping_add(b) - (a + b)) % 0x1_0000 == 0,
        (a.wrapping_sub(b) - (a - b)) % 0x1_0000 == 0,
        (a.wrapping_mul(b) - a * b) % 0x1_0000 == 0,
{
    let s = a + b;
    let k: int = if s > i16::MAX { -1 } else if s < i16::MIN { 1 } else { 0 };
    assert(a.wrapping_add(b) - s == k * 0x1_0000);
    lemma_mod_multiples_basic(k, 0x1_0000);
    let d = a - b;
    let k: int = if d > i16::MAX { -1 } else if d < i16::MIN { 1 } else { 0 };
    assert(a.wrapping_sub(b) - d == k * 0x1_0000);
    lemma_mod_multiples_basic(k, 0x1_0000);
    let p = a * b;
    lemma_fundamental_div_mod(p, 0x1_0000);
    let k: int = if p % 0x1_0000 > i16::MAX {
        -(p / 0x1_0000) - 1
    } else {
        -(p / 0x1_0000)
    };
    assert(a.wrapping_mul(b) - p == k * 0x1_0000);
    lemma_mod_multiples_basic(k, 0x1_0000);
}

/// Every lane a comparison produces is all zeros or all ones: as an unsigned bit pattern,
/// `0` or `u16::MAX`.
pub proof fn law_mask_bits_i16(c: bool)
    ensures
        lane::is_mask_i16(lane::mask_i16(c)),
        lane::mask_i16(c) as u16 == 0 || lane::mask_i16(c) as u16 == u16::MAX,
{
    assert((0i16) as u16 == 0 && (-1i16) as u16 == u16::MAX) by (bit_vector);
}

/// Less-or-equal is the complement of greater-than, and greater-or-equal is the union of
/// greater-than and equality, lane for lane: `cmp_lte(a, b) == bit_not(cmp_gt(a, b))` and
/// `cmp_gte(a, b) == bit_or(cmp_gt(a, b), cmp_eq(a, b))`.
pub proof fn law_de_morgan_i16(a: I16x8, b: I16x8)
    ensures
        Seq::new(8, |i: int| lane::mask_i16(a@[i] <= b@[i])) == Seq::new(
            8,
            |i: int| lane::not_i16(lane::mask_i16(a@[i] > b@[i])),
        ),
        Seq::new(8, |i: int| lane::mask_i16(a@[i] >= b@[i])) == Seq::new(
            8,
            |i: int| lane::mask_i16(a@[i] > b@[i]) | lane::mask_i16(a@[i] == b@[i]),
        ),
{
    lane::lemma_bits_i16(0);
    lane::lemma_bits_i16(-1i16);
    assert(Seq::new(8, |i: int| lane::mask_i16(a@[i] <= b@[i])) =~= Seq::new(
        8,
        |i: int| lane::not_i16(lane::mask_i16(a@[i] > b@[i])),
    ));
    assert(Seq::new(8, |i: int| lane::mask_i16(a@[i] >= b@[i])) =~= Seq::new(
        8,
        |i: int| lane::mask_i16(a@[i] > b@[i]) | lane::mask_i16(a@[i] == b@[i]),
    ));
}

/// Storing a value over the front of a slice and loading from the front again gives the
/// value back: `load_from_slice` undoes `copy_to_slice`.
pub proof fn law_store_load_i16(v: I16x8, dst: Seq<i16>)
    requires
        dst.len() >= 8,
    ensures
        (v@ + dst.subrange(8, dst.len() as int)).subrange(0, 8) == v@,
{
    v.lemma_lane_count();
    assert((v@ + dst.subrange(8, dst.len() as int)).subrange(0, 8) =~= v@);
}

/// Wrapping addition, subtraction and multiplication of 32-bit lanes are exact arithmetic
/// modulo `2^32`: each result differs from the true sum, difference or product by a
/// multiple of `2^32`.
pub proof fn law_wrap_around_i32(a: i32, b: i32)
    ensures
        (a.wrapping_add(b) - (a + b)) % 0x1_0000_0000 == 0,
        (a.wrapping_sub(b) - (a - b)) % 0x1_0000_0000 == 0,
        (a.wrapping_mul(b) - a * b) % 0x1_0000_0000 == 0,
{
    let s = a + b;
    let k: int = if s > i32::MAX { -1 } else if s < i32::MIN { 1 } else { 0 };
    assert(a.wrapping_add(b) - s == k * 0x1_0000_0000);
    lemma_mod_multiples_basic(k, 0x1_0000_0000);
    let d = a - b;
    let k: int = if d > i32::MAX { -1 } else if d < i32::MIN { 1 } else { 0 };
    assert(a.wrapping_sub(b) - d == k * 0x1_0000_0000);
    lemma_mod_multiples_basic(k, 0x1_0000_0000);
    let p = a * b;
    lemma_fundamental_div_mod(p, 0x1_0000_0000);
    let k: int = if p % 0x1_0000_0000 > i32::MAX {
        -(p / 0x1_0000_0000) - 1
    } else {
        -(p / 0x1_0000_0000)
    };
    assert(a.wrapping_mul(b) - p == k * 0x1_0000_0000);
    lemma_mod_multiples_basic(k, 0x1_0000_0000);
}

/// Every lane a comparison produces is all zeros or all ones: as an unsigned bit pattern,
/// `0` or `u32::MAX`.
pub proof fn law_mask_bits_i32(c: bool)
    ensures
        lane::is_mask_i32(lane::mask_i32(c)),
        lane::mask_i32(c) as u32 == 0 || lane::mask_i32(c) as u32 == u32::MAX,
{
    assert((0i32) as u32 == 0 && (-1i32) as u32 == u32::MAX) by (bit_vector);
}

/// Less-or-equal is the complement of greater-than, and greater-or-equal is the union of
/// greater-than and equality, lane for lane: `cmp_lte(a, b) == bit_not(cmp_gt(a, b))` and
/// `cmp_gte(a, b) == bit_or(cmp_gt(a, b), cmp_eq(a, b))`.
pub proof fn law_de_morgan_i32(a: I32x4, b: I32x4)
    ensures
        Seq::new(4, |i: int| lane::mask_i32(a@[i] <= b@[i])) == Seq::new(
            4,
            |i: int| lane::not_i32(lane::mask_i32(a@[i] > b@[i])),
        ),
        Seq::new(4, |i: int| lane::mask_i32(a@[i] >= b@[i])) == Seq::new(
            4,
            |i: int| lane::mask_i32(a@[i] > b@[i]) | lane::mask_i32(a@[i] == b@[i]),
        ),
{
    lane::lemma_bits_i32(0);
    lane::lemma_bits_i32(-1i32);
    assert(Seq::new(4, |i: int| lane::mask_i32(a@[i] <= b@[i])) =~= Seq::new(
        4,
        |i: int| lane::not_i32(lane::mask_i32(a@[i] > b@[i])),
    ));
    assert(Seq::new(4, |i: int| lane::mask_i32(a@[i] >= b@[i])) =~= Seq::new(
        4,
        |i: int| lane::mask_i32(a@[i] > b@[i]) | lane::mask_i32(a@[i] == b@[i]),
    ));
}

/// Storing a value over the front of a slice and loading from the front again gives the
/// value back: `load_from_slice` undoes `copy_to_slice`.
pub proof fn law_store_load_i32(v: I32x4, dst: Seq<i32>)
    requires
        dst.len() >= 4,
    ensures
        (v@ + dst.subrange(4, dst.len() as int)).subrange(0, 4) == v@,
{
    v.lemma_lane_count();
    assert((v@ + dst.subrange(4, dst.len() as int)).subrange(0, 4) =~= v@);
}

/// Wrapping addition, subtraction and multiplication of 64-bit lanes are exact arithmetic
/// modulo `2^64`: each result differs from the true sum, difference or product by a
/// multiple of `2^64`.
pub proof fn law_wrap_around_i64(a: i64, b: i64)
    ensures
        (a.wrapping_add(b) - (a + b)) % 0x1_0000_0000_0000_0000 == 0,
        (a.wrapping_sub(b) - (a - b)) % 0x1_0000_0000_0000_0000 == 0,
        (a.wrapping_mul(b) - a * b) % 0x1_0000_0000_0000_0000 == 0,
{
    let s = a + b;
    let k: int = if s > i64::MAX { -1 } else if s < i64::MIN { 1 } else { 0 };
    assert(a.wrapping_add(b) - s == k * 0x1_0000_0000_0000_0000);
    lemma_mod_multiples_basic(k, 0x1_0000_0000_0000_0000);
    let d = a - b;
    let k: int = if d > i64::MAX { -1 } else if d < i64::MIN { 1 } else { 0 };
    assert(a.wrapping_sub(b) - d == k * 0x1_0000_0000_0000_0000);
    lemma_mod_multiples_basic(k, 0x1_0000_0000_0000_0000);
    let p = a * b;
    lemma_fundamental_div_mod(p, 0x1_0000_0000_0000_0000);
    let k: int = if p % 0x1_0000_0000_0000_0000 > i64::MAX {
        -(p / 0x1_0000_0000_0000_0000) - 1
    } else {
        -(p / 0x1_0000_0000_0000_0000)
    };
    assert(a.wrapping_mul(b) - p == k * 0x1_0000_0000_0000_0000);
    lemma_mod_multiples_basic(k, 0x1_0000_0000_0000_0000);
}

/// Every lane a comparison produces is all zeros or all ones: as an unsigned bit pattern,
/// `0` or `u64::MAX`.
pub proof fn law_mask_bits_i64(c: bool)
    ensures
        lane::is_mask_i64(lane::mask_i64(c)),
        lane::mask_i64(c) as u64 == 0 || lane::mask_i64(c) as u64 == u64::MAX,
{
    assert((0i64) as u64 == 0 && (-1i64) as u64 == u64::MAX) by (bit_vector);
}

/// Less-or-equal is the complement of greater-than, and greater-or-equal is the union of
/// greater-than and equality, lane for lane: `cmp_lte(a, b) == bit_not(cmp_gt(a, b))` and
/// `cmp_gte(a, b) == bit_or(cmp_gt(a, b), cmp_eq(a, b))`.
pub proof fn law_de_morgan_i64(a: I64x2, b: I64x2)
    ensures
        Seq::new(2, |i: int| lane::mask_i64(a@[i] <= b@[i])) == Seq::new(
            2,
            |i: int| lane::not_i64(lane::mask_i64(a@[i] > b@[i])),
        ),
        Seq::new(2, |i: int| lane::mask_i64(a@[i] >= b@[i])) == Seq::new(
            2,
            |i: int| lane::mask_i64(a@[i] > b@[i]) | lane::mask_i64(a@[i] == b@[i]),
        ),
{
    lane::lemma_bits_i64(0);
    lane::lemma_bits_i64(-1i64);
    assert(Seq::new(2, |i: int| lane::mask_i64(a@[i] <= b@[i])) =~= Seq::new(
        2,
        |i: int| lane::not_i64(lane::mask_i64(a@[i] > b@[i])),
    ));
    assert(Seq::new(2, |i: int| lane::mask_i64(a@[i] >= b@[i])) =~= Seq::new(
        2,
        |i: int| lane::mask_i64(a@[i] > b@[i]) | lane::mask_i64(a@[i] == b@[i]),
    ));
}

/// Storing a value over the front of a slice and loading from the front again gives the
/// value back: `load_from_slice` undoes `copy_to_slice`.
pub proof fn law_store_load_i64(v: I64x2, dst: Seq<i64>)
    requires
        dst.len() >= 2,
    ensures
        (v@ + dst.subrange(2, dst.len() as int)).subrange(0, 2) == v@,
{
    v.lemma_lane_count();
    assert((v@ + dst.subrange(2, dst.len() as int)).subrange(0, 2) =~= v@);
}

/// Widening 8-bit lanes to 16 bits and narrowing back returns the lanes that went in,
/// for the sign-extending and the zero-extending widening alike: the first half comes
/// from lanes 0 to 7 and the second from lanes 8 to 15.
pub proof fn law_widen_narrow_i8(v: I8x16)
    ensures
        (Seq::new(8, |k: int| v@[k] as i16) + Seq::new(8, |k: int| v@[k + 8] as i16)).map_values(
            |x: i16| x as i8,
        ) == v@,
        (Seq::new(8, |k: int| v@[k] as u8 as i16) + Seq::new(
            8,
            |k: int| v@[k + 8] as u8 as i16,
        )).map_values(|x: i16| x as i8) == v@,
{
    v.lemma_lane_count();
    assert forall|i: int| 0 <= i < 16 implies (#[trigger] v@[i] as i16) as i8 == v@[i] && (
    v@[i] as u8 as i16) as i8 == v@[i] by {
        lemma_narrow_widened(v@[i]);
    }
    assert((Seq::new(8, |k: int| v@[k] as i16) + Seq::new(8, |k: int| v@[k + 8] as i16)).map_values(
        |x: i16| x as i8,
    ) =~= v@);
    assert((Seq::new(8, |k: int| v@[k] as u8 as i16) + Seq::new(
        8,
        |k: int| v@[k + 8] as u8 as i16,
    )).map_values(|x: i16| x as i8) =~= v@);
}

/// An 8-bit value survives widening, by sign or by zero extension, and truncation back.
proof fn lemma_narrow_widened(x: i8)
    by (bit_vector)
    ensures
        (x as i16) as i8 == x,
        (x as u8 as i16) as i8 == x,
{
}

/// Reading 32-bit floating-point lanes as integers and back keeps every bit, and so does
/// the converse: `bitcast_f32(bitcast_i32(v)) == v` and `bitcast_i32(bitcast_f32(w)) == w`.
pub proof fn law_bitcast_round_trip_32(v: F32x4, w: I32x4)
    ensures
        Seq::new(4, |i: int| Seq::new(4, |j: int| v@[j] as i32)[i] as u32) == v@,
        Seq::new(4, |i: int| Seq::new(4, |j: int| w@[j] as u32)[i] as i32) == w@,
{
    v.lemma_lane_count();
    w.lemma_lane_count();
    assert forall|i: int| 0 <= i < 4 implies (#[trigger] v@[i] as i32) as u32 == v@[i] by {
        lane::lemma_bits_u32(v@[i], 0);
    }
    assert forall|i: int| 0 <= i < 4 implies (#[trigger] w@[i] as u32) as i32 == w@[i] by {
        lane::lemma_bits_u32(0, w@[i]);
    }
    assert(Seq::new(4, |i: int| Seq::new(4, |j: int| v@[j] as i32)[i] as u32) =~= v@);
    assert(Seq::new(4, |i: int| Seq::new(4, |j: int| w@[j] as u32)[i] as i32) =~= w@);
}

/// Reading 64-bit floating-point lanes as integers and back keeps every bit, and so does
/// the converse: `bitcast_f64(bitcast_i64(v)) == v` and `bitcast_i64(bitcast_f64(w)) == w`.
pub proof fn law_bitcast_round_trip_64(v: F64x2, w: I64x2)
    ensures
        Seq::new(2, |i: int| Seq::new(2, |j: int| v@[j] as i64)[i] as u64) == v@,
        Seq::new(2, |i: int| Seq::new(2, |j: int| w@[j] as u64)[i] as i64) == w@,
{
    v.lemma_lane_count();
    w.lemma_lane_count();
    assert forall|i: int| 0 <= i < 2 implies (#[trigger] v@[i] as i64) as u64 == v@[i] by {
        lane::lemma_bits_u64(v@[i], 0);
    }
    assert forall|i: int| 0 <= i < 2 implies (#[trigger] w@[i] as u64) as i64 == w@[i] by {
        lane::lemma_bits_u64(0, w@[i]);
    }
    assert(Seq::new(2, |i: int| Seq::new(2, |j: int| v@[j] as i64)[i] as u64) =~= v@);
    assert(Seq::new(2, |i: int| Seq::new(2, |j: int| w@[j] as u64)[i] as i64) =~= w@);
}

} // verus!
