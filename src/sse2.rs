//! Lane operations for the narrower extension, which lacks several instructions: for
//! 16- and 32-bit lanes it has no absolute value, no blend and only the equality and
//! greater-than comparisons, and for 32-bit lanes no multiply, minimum or maximum either.
//!
//! Each operation is built from ones the extension does have, and each meets the same
//! per-lane contract as the corresponding method of `I16x8` or `I32x4`.
use vstd::prelude::*;

use crate::i16x8::I16x8;
use crate::i32x4::I32x4;
use crate::lane;

verus! {

broadcast use I16x8::lemma_lane_count, I32x4::lemma_lane_count;

/// Bitwise selection: the bits of `b` where `mask` has them set, those of `a` elsewhere.

/// On a comparison mask this takes whole lanes.
pub fn blendv_i16(a: I16x8, b: I16x8, mask: I16x8) -> (r: I16x8)
    ensures
        r@ == Seq::new(8, |i: int| (mask@[i] & b@[i]) | (lane::not_i16(mask@[i]) & a@[i])),
        mask.is_mask() ==> r@ == Seq::new(8, |i: int| if mask@[i] == 0 { a@[i] } else { b@[i] }),
{
    let r = mask.bit_and(b).bit_or(mask.and_not(a));
    assert(r@ =~= Seq::new(8, |i: int| (mask@[i] & b@[i]) | (lane::not_i16(mask@[i]) & a@[i])));
    proof {
        if mask.is_mask() {
            assert forall|i: int| 0 <= i < 8 implies #[trigger] r@[i] == (if mask@[i] == 0 {
                a@[i]
            } else {
                b@[i]
            }) by {
                lane::lemma_bits_i16(a@[i]);
                lane::lemma_bits_i16(b@[i]);
            }
            assert(r@ =~= Seq::new(8, |i: int| if mask@[i] == 0 { a@[i] } else { b@[i] }));
        }
    }
    r
}

/// Lane-wise absolute value, as `(x ^ m) - m` with `m` the mask of `0 > x`.
pub fn abs_i16(a: I16x8) -> (r: I16x8)
    ensures
        r@ == Seq::new(8, |i: int| lane::abs_i16(a@[i])),
{
    let mask = I16x8::zeroes().cmp_gt(a);
    let r = a.bit_xor(mask).sub(mask);
    assert forall|i: int| 0 <= i < 8 implies #[trigger] r@[i] == lane::abs_i16(a@[i]) by {
        lane::lemma_bits_i16(a@[i]);
    }
    assert(r@ =~= Seq::new(8, |i: int| lane::abs_i16(a@[i])));
    r
}

/// Lane-wise `a != b`: the equality mask flipped by exclusive or with all ones.
pub fn neq_i16(a: I16x8, b: I16x8) -> (r: I16x8)
    ensures
        r@ == Seq::new(8, |i: int| lane::mask_i16(a@[i] != b@[i])),
        r.is_mask(),
{
    let r = a.cmp_eq(b).bit_xor(I16x8::set1(-1));
    proof {
        lane::lemma_bits_i16(0);
        lane::lemma_bits_i16(-1i16);
    }
    assert(r@ =~= Seq::new(8, |i: int| lane::mask_i16(a@[i] != b@[i])));
    r
}

/// Lane-wise `a < b`: neither greater nor equal.
pub fn lt_i16(a: I16x8, b: I16x8) -> (r: I16x8)
    ensures
        r@ == Seq::new(8, |i: int| lane::mask_i16(a@[i] < b@[i])),
        r.is_mask(),
{
    let gt = a.cmp_gt(b);
    let eq = a.cmp_eq(b);
    let r = gt.bit_or(eq).and_not(I16x8::set1(-1));
    proof {
        lane::lemma_bits_i16(0);
        lane::lemma_bits_i16(-1i16);
    }
    assert(r@ =~= Seq::new(8, |i: int| lane::mask_i16(a@[i] < b@[i])));
    r
}

/// Lane-wise `a <= b`: the greater-than mask flipped by exclusive or with all ones.
pub fn lte_i16(a: I16x8, b: I16x8) -> (r: I16x8)
    ensures
        r@ == Seq::new(8, |i: int| lane::mask_i16(a@[i] <= b@[i])),
        r.is_mask(),
{
    let r = a.cmp_gt(b).bit_xor(I16x8::set1(-1));
    proof {
        lane::lemma_bits_i16(0);
        lane::lemma_bits_i16(-1i16);
    }
    assert(r@ =~= Seq::new(8, |i: int| lane::mask_i16(a@[i] <= b@[i])));
    r
}

/// Lane-wise `a >= b`: greater or equal.
pub fn gte_i16(a: I16x8, b: I16x8) -> (r: I16x8)
    ensures
        r@ == Seq::new(8, |i: int| lane::mask_i16(a@[i] >= b@[i])),
        r.is_mask(),
{
    let r = a.cmp_gt(b).bit_or(a.cmp_eq(b));
    proof {
        lane::lemma_bits_i16(0);
        lane::lemma_bits_i16(-1i16);
    }
    assert(r@ =~= Seq::new(8, |i: int| lane::mask_i16(a@[i] >= b@[i])));
    r
}

/// Lane-wise wrapping multiplication, one lane at a time.
pub fn mul_i32(a: I32x4, b: I32x4) -> (r: I32x4)
    ensures
        r@ == Seq::new(4, |i: int| a@[i].wrapping_mul(b@[i])),
{
    let x = a.underlying_value();
    let y = b.underlying_value();
    let r = I32x4::from_underlying_value(
        [
            x[0].wrapping_mul(y[0]),
            x[1].wrapping_mul(y[1]),
            x[2].wrapping_mul(y[2]),
            x[3].wrapping_mul(y[3]),
        ],
    );
    assert(r@ =~= Seq::new(4, |i: int| a@[i].wrapping_mul(b@[i])));
    r
}

/// Bitwise selection: the bits of `b` where `mask` has them set, those of `a` elsewhere.

/// On a comparison mask this takes whole lanes.
pub fn blendv_i32(a: I32x4, b: I32x4, mask: I32x4) -> (r: I32x4)
    ensures
        r@ == Seq::new(4, |i: int| (mask@[i] & b@[i]) | (lane::not_i32(mask@[i]) & a@[i])),
        mask.is_mask() ==> r@ == Seq::new(4, |i: int| if mask@[i] == 0 { a@[i] } else { b@[i] }),
{
    let r = mask.bit_and(b).bit_or(mask.and_not(a));
    assert(r@ =~= Seq::new(4, |i: int| (mask@[i] & b@[i]) | (lane::not_i32(mask@[i]) & a@[i])));
    proof {
        if mask.is_mask() {
            assert forall|i: int| 0 <= i < 4 implies #[trigger] r@[i] == (if mask@[i] == 0 {
                a@[i]
            } else {
                b@[i]
            }) by {
                lane::lemma_bits_i32(a@[i]);
                lane::lemma_bits_i32(b@[i]);
            }
            assert(r@ =~= Seq::new(4, |i: int| if mask@[i] == 0 { a@[i] } else { b@[i] }));
        }
    }
    r
}

/// Lane-wise minimum: `b` where `a > b`, `a` elsewhere.
pub fn min_i32(a: I32x4, b: I32x4) -> (r: I32x4)
    ensures
        r@ == Seq::new(4, |i: int| lane::min_i32(a@[i], b@[i])),
{
    let mask = a.cmp_gt(b);
    let r = blendv_i32(a, b, mask);
    assert(r@ =~= Seq::new(4, |i: int| lane::min_i32(a@[i], b@[i])));
    r
}

/// Lane-wise maximum: `a` where `a > b`, `b` elsewhere.
pub fn max_i32(a: I32x4, b: I32x4) -> (r: I32x4)
    ensures
        r@ == Seq::new(4, |i: int| lane::max_i32(a@[i], b@[i])),
{
    let mask = a.cmp_gt(b);
    let r = blendv_i32(b, a, mask);
    assert(r@ =~= Seq::new(4, |i: int| lane::max_i32(a@[i], b@[i])));
    r
}

/// Lane-wise absolute value, as `(x ^ m) - m` with `m` the mask of `0 > x`.
pub fn abs_i32(a: I32x4) -> (r: I32x4)
    ensures
        r@ == Seq::new(4, |i: int| lane::abs_i32(a@[i])),
{
    let mask = I32x4::zeroes().cmp_gt(a);
    let r = a.bit_xor(mask).sub(mask);
    assert forall|i: int| 0 <= i < 4 implies #[trigger] r@[i] == lane::abs_i32(a@[i]) by {
        lane::lemma_bits_i32(a@[i]);
    }
    assert(r@ =~= Seq::new(4, |i: int| lane::abs_i32(a@[i])));
    r
}

/// Lane-wise `a != b`: the equality mask flipped by exclusive or with all ones.
pub fn neq_i32(a: I32x4, b: I32x4) -> (r: I32x4)
    ensures
        r@ == Seq::new(4, |i: int| lane::mask_i32(a@[i] != b@[i])),
        r.is_mask(),
{
    let r = a.cmp_eq(b).bit_xor(I32x4::set1(-1));
    proof {
        lane::lemma_bits_i32(0);
        lane::lemma_bits_i32(-1i32);
    }
    assert(r@ =~= Seq::new(4, |i: int| lane::mask_i32(a@[i] != b@[i])));
    r
}

/// Lane-wise `a < b`: neither greater nor equal.
pub fn lt_i32(a: I32x4, b: I32x4) -> (r: I32x4)
    ensures
        r@ == Seq::new(4, |i: int| lane::mask_i32(a@[i] < b@[i])),
        r.is_mask(),
{
    let gt = a.cmp_gt(b);
    let eq = a.cmp_eq(b);
    let r = gt.bit_or(eq).and_not(I32x4::set1(-1));
    proof {
        lane::lemma_bits_i32(0);
        lane::lemma_bits_i32(-1i32);
    }
    assert(r@ =~= Seq::new(4, |i: int| lane::mask_i32(a@[i] < b@[i])));
    r
}

/// Lane-wise `a <= b`: the greater-than mask flipped by exclusive or with all ones.
pub fn lte_i32(a: I32x4, b: I32x4) -> (r: I32x4)
    ensures
        r@ == Seq::new(4, |i: int| lane::mask_i32(a@[i] <= b@[i])),
        r.is_mask(),
{
    let r = a.cmp_gt(b).bit_xor(I32x4::set1(-1));
    proof {
        lane::lemma_bits_i32(0);
        lane::lemma_bits_i32(-1i32);
    }
    assert(r@ =~= Seq::new(4, |i: int| lane::mask_i32(a@[i] <= b@[i])));
    r
}

/// Lane-wise `a >= b`: greater or equal.
pub fn gte_i32(a: I32x4, b: I32x4) -> (r: I32x4)
    ensures
        r@ == Seq::new(4, |i: int| lane::mask_i32(a@[i] >= b@[i])),
        r.is_mask(),
{
    let r = a.cmp_gt(b).bit_or(a.cmp_eq(b));
    proof {
        lane::lemma_bits_i32(0);
        lane::lemma_bits_i32(-1i32);
    }
    assert(r@ =~= Seq::new(4, |i: int| lane::mask_i32(a@[i] >= b@[i])));
    r
}
} // verus!
