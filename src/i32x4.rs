//! Four lanes of 32-bit integers in one 128-bit register.
use vstd::prelude::*;

use crate::lane;
use crate::f32x4::F32x4;
use crate::i64x2::I64x2;

verus! {

/// Four lanes of 32-bit two's-complement integers held in one 128-bit register, lane
/// 0 first.
#[derive(Clone, Copy)]
pub struct I32x4 {
    lanes: [i32; 4],
}

impl View for I32x4 {
    type V = Seq<i32>;

    closed spec fn view(&self) -> Seq<i32> {
        self.lanes@
    }
}

impl I32x4 {
    /// Every lane is a comparison result: no bits set, or all of them.
    pub open spec fn is_mask(self) -> bool {
        lane::all_masks_i32(self@)
    }

    /// A value always has exactly 4 lanes.
    pub broadcast proof fn lemma_lane_count(self)
        ensures
            #[trigger] self@.len() == 4,
    {
    }

    /// The value with every bit clear.
    pub fn zeroes() -> (r: Self)
        ensures
            r@ == Seq::new(4, |i: int| 0i32),
    {
        let r = I32x4 { lanes: [0i32; 4] };
        assert(r@ =~= Seq::new(4, |i: int| 0i32));
        r
    }

    /// `x` in every lane.
    pub fn set1(x: i32) -> (r: Self)
        ensures
            r@ == Seq::new(4, |i: int| x),
    {
        let r = I32x4 { lanes: [x; 4] };
        assert(r@ =~= Seq::new(4, |i: int| x));
        r
    }

    /// The lanes of `array`, in order.
    pub fn load_from_array(array: [i32; 4]) -> (r: Self)
        ensures
            r@ == array@,
    {
        I32x4 { lanes: array }
    }

    /// The first 4 elements of `src`, in order; `src` needs no particular alignment.
    pub fn load_from_slice(src: &[i32]) -> (r: Self)
        requires
            src@.len() >= 4,
        ensures
            r@ == src@.subrange(0, 4),
    {
        let mut out = [0i32; 4];
        let mut i: usize = 0;
        while i < 4
            invariant
                i <= 4,
                src@.len() >= 4,
                forall|j: int| 0 <= j < i ==> out[j] == src@[j],
            decreases 4 - i,
        {
            out[i] = src[i];
            i += 1;
        }
        let r = I32x4 { lanes: out };
        assert(r@ =~= src@.subrange(0, 4));
        r
    }

    /// Writes the lanes over the first 4 elements of `dst` and leaves the rest as it was.
    pub fn copy_to_slice(self, dst: &mut [i32])
        requires
            old(dst)@.len() >= 4,
        ensures
            final(dst)@ == self@ + old(dst)@.subrange(4, old(dst)@.len() as int),
    {
        let mut i: usize = 0;
        while i < 4
            invariant
                i <= 4,
                old(dst)@.len() >= 4,
                dst@.len() == old(dst)@.len(),
                forall|j: int| 0 <= j < i ==> dst@[j] == self@[j],
                forall|j: int| i <= j < dst@.len() ==> dst@[j] == old(dst)@[j],
            decreases 4 - i,
        {
            dst[i] = self.lanes[i];
            i += 1;
        }
        assert(dst@ =~= self@ + old(dst)@.subrange(4, old(dst)@.len() as int));
    }

    /// The register's contents as an array of lanes.
    pub fn underlying_value(self) -> (r: [i32; 4])
        ensures
            r@ == self@,
    {
        self.lanes
    }

    /// The register's contents, to be changed in place.
    pub fn underlying_value_mut(&mut self) -> (r: &mut [i32; 4])
        ensures
            (*r)@ == old(self)@,
            final(self)@ == (*final(r))@,
    {
        &mut self.lanes
    }

    /// The value whose register holds `value`.
    pub fn from_underlying_value(value: [i32; 4]) -> (r: Self)
        ensures
            r@ == value@,
    {
        I32x4 { lanes: value }
    }

    /// Lane `i`.
    pub fn lane(self, i: usize) -> (r: i32)
        requires
            i < 4,
        ensures
            r == self@[i as int],
    {
        self.lanes[i]
    }

    /// Lane-wise wrapping addition.
    pub fn add(self, rhs: Self) -> (r: Self)
        ensures
            r@ == Seq::new(4, |i: int| self@[i].wrapping_add(rhs@[i])),
    {
        let mut out = [0i32; 4];
        let mut i: usize = 0;
        while i < 4
            invariant
                i <= 4,
                forall|j: int| 0 <= j < i ==> out[j] == self@[j].wrapping_add(rhs@[j]),
            decreases 4 - i,
        {
            out[i] = self.lanes[i].wrapping_add(rhs.lanes[i]);
            i += 1;
        }
        let r = I32x4 { lanes: out };
        assert(r@ =~= Seq::new(4, |j: int| self@[j].wrapping_add(rhs@[j])));
        r
    }

    /// Lane-wise wrapping subtraction.
    pub fn sub(self, rhs: Self) -> (r: Self)
        ensures
            r@ == Seq::new(4, |i: int| self@[i].wrapping_sub(rhs@[i])),
    {
        let mut out = [0i32; 4];
        let mut i: usize = 0;
        while i < 4
            invariant
                i <= 4,
                forall|j: int| 0 <= j < i ==> out[j] == self@[j].wrapping_sub(rhs@[j]),
            decreases 4 - i,
        {
            out[i] = self.lanes[i].wrapping_sub(rhs.lanes[i]);
            i += 1;
        }
        let r = I32x4 { lanes: out };
        assert(r@ =~= Seq::new(4, |j: int| self@[j].wrapping_sub(rhs@[j])));
        r
    }

    /// Lane-wise wrapping multiplication, keeping the low 32 bits of each product.
    pub fn mul(self, rhs: Self) -> (r: Self)
        ensures
            r@ == Seq::new(4, |i: int| self@[i].wrapping_mul(rhs@[i])),
    {
        let mut out = [0i32; 4];
        let mut i: usize = 0;
        while i < 4
            invariant
                i <= 4,
                forall|j: int| 0 <= j < i ==> out[j] == self@[j].wrapping_mul(rhs@[j]),
            decreases 4 - i,
        {
            out[i] = self.lanes[i].wrapping_mul(rhs.lanes[i]);
            i += 1;
        }
        let r = I32x4 { lanes: out };
        assert(r@ =~= Seq::new(4, |j: int| self@[j].wrapping_mul(rhs@[j])));
        r
    }

    /// Bitwise and.
    pub fn bit_and(self, rhs: Self) -> (r: Self)
        ensures
            r@ == Seq::new(4, |i: int| self@[i] & rhs@[i]),
    {
        let mut out = [0i32; 4];
        let mut i: usize = 0;
        while i < 4
            invariant
                i <= 4,
                forall|j: int| 0 <= j < i ==> out[j] == self@[j] & rhs@[j],
            decreases 4 - i,
        {
            out[i] = self.lanes[i] & rhs.lanes[i];
            i += 1;
        }
        let r = I32x4 { lanes: out };
        assert(r@ =~= Seq::new(4, |j: int| self@[j] & rhs@[j]));
        r
    }

    /// Bitwise or.
    pub fn bit_or(self, rhs: Self) -> (r: Self)
        ensures
            r@ == Seq::new(4, |i: int| self@[i] | rhs@[i]),
    {
        let mut out = [0i32; 4];
        let mut i: usize = 0;
        while i < 4
            invariant
                i <= 4,
                forall|j: int| 0 <= j < i ==> out[j] == self@[j] | rhs@[j],
            decreases 4 - i,
        {
            out[i] = self.lanes[i] | rhs.lanes[i];
            i += 1;
        }
        let r = I32x4 { lanes: out };
        assert(r@ =~= Seq::new(4, |j: int| self@[j] | rhs@[j]));
        r
    }

    /// Bitwise exclusive or.
    pub fn bit_xor(self, rhs: Self) -> (r: Self)
        ensures
            r@ == Seq::new(4, |i: int| self@[i] ^ rhs@[i]),
    {
        let mut out = [0i32; 4];
        let mut i: usize = 0;
        while i < 4
            invariant
                i <= 4,
                forall|j: int| 0 <= j < i ==> out[j] == self@[j] ^ rhs@[j],
            decreases 4 - i,
        {
            out[i] = self.lanes[i] ^ rhs.lanes[i];
            i += 1;
        }
        let r = I32x4 { lanes: out };
        assert(r@ =~= Seq::new(4, |j: int| self@[j] ^ rhs@[j]));
        r
    }

    /// Bitwise complement, as exclusive or with all bits set.
    pub fn bit_not(self) -> (r: Self)
        ensures
            r@ == Seq::new(4, |i: int| lane::not_i32(self@[i])),
    {
        let r = Self::set1(-1).bit_xor(self);
        assert forall|i: int| 0 <= i < 4 implies #[trigger] r@[i] == lane::not_i32(self@[i]) by {
            lane::lemma_bits_i32(self@[i]);
        }
        assert(r@ =~= Seq::new(4, |i: int| lane::not_i32(self@[i])));
        r
    }

    /// Lane-wise absolute value, as `(x ^ m) - m` with `m` the mask of `x < 0`; the
    /// minimum value stays as it is.
    pub fn abs(self) -> (r: Self)
        ensures
            r@ == Seq::new(4, |i: int| lane::abs_i32(self@[i])),
    {
        let mask = self.cmp_lt(Self::zeroes());
        let r = self.bit_xor(mask).sub(mask);
        assert forall|i: int| 0 <= i < 4 implies #[trigger] r@[i] == lane::abs_i32(self@[i]) by {
            lane::lemma_bits_i32(self@[i]);
        }
        assert(r@ =~= Seq::new(4, |i: int| lane::abs_i32(self@[i])));
        r
    }

    /// The complement of `self`, and `rhs`: `!self & rhs`.
    pub fn and_not(self, rhs: Self) -> (r: Self)
        ensures
            r@ == Seq::new(4, |i: int| lane::not_i32(self@[i]) & rhs@[i]),
    {
        let mut out = [0i32; 4];
        let mut i: usize = 0;
        while i < 4
            invariant
                i <= 4,
                forall|j: int| 0 <= j < i ==> out[j] == lane::not_i32(self@[j]) & rhs@[j],
            decreases 4 - i,
        {
            out[i] = !self.lanes[i] & rhs.lanes[i];
            i += 1;
        }
        let r = I32x4 { lanes: out };
        assert(r@ =~= Seq::new(4, |j: int| lane::not_i32(self@[j]) & rhs@[j]));
        r
    }

    /// Per lane, `b` where the mask lane `self` has its top bit set and `a` elsewhere; on
    /// a comparison mask, `b` where the lane is all ones.
    pub fn blendv(self, a: Self, b: Self) -> (r: Self)
        ensures
            r@ == Seq::new(4, |i: int| lane::select_i32(self@[i], a@[i], b@[i])),
            self.is_mask() ==> r@ == Seq::new(
                4,
                |i: int| if self@[i] == 0 { a@[i] } else { b@[i] },
            ),
    {
        let mut out = [0i32; 4];
        let mut i: usize = 0;
        while i < 4
            invariant
                i <= 4,
                forall|j: int| 0 <= j < i ==> out[j] == lane::select_i32(self@[j], a@[j], b@[j]),
            decreases 4 - i,
        {
            out[i] = if self.lanes[i] < 0 { b.lanes[i] } else { a.lanes[i] };
            i += 1;
        }
        let r = I32x4 { lanes: out };
        assert(r@ =~= Seq::new(4, |j: int| lane::select_i32(self@[j], a@[j], b@[j])));
        r
    }

    /// Lane-wise `self == rhs`, as a mask.
    pub fn cmp_eq(self, rhs: Self) -> (r: Self)
        ensures
            r@ == Seq::new(4, |i: int| lane::mask_i32(self@[i] == rhs@[i])),
            r.is_mask(),
    {
        let mut out = [0i32; 4];
        let mut i: usize = 0;
        while i < 4
            invariant
                i <= 4,
                forall|j: int| 0 <= j < i ==> out[j] == lane::mask_i32(self@[j] == rhs@[j]),
            decreases 4 - i,
        {
            out[i] = if self.lanes[i] == rhs.lanes[i] { -1 } else { 0 };
            i += 1;
        }
        let r = I32x4 { lanes: out };
        assert(r@ =~= Seq::new(4, |j: int| lane::mask_i32(self@[j] == rhs@[j])));
        r
    }

    /// Lane-wise `self != rhs`, as a mask: the complement of `cmp_eq`.
    pub fn cmp_neq(self, rhs: Self) -> (r: Self)
        ensures
            r@ == Seq::new(4, |i: int| lane::mask_i32(self@[i] != rhs@[i])),
            r.is_mask(),
    {
        let r = self.cmp_eq(rhs).bit_not();
        proof {
            lane::lemma_bits_i32(0);
        }
        assert(r@ =~= Seq::new(4, |i: int| lane::mask_i32(self@[i] != rhs@[i])));
        r
    }

    /// Lane-wise `self < rhs`, as a mask.
    pub fn cmp_lt(self, rhs: Self) -> (r: Self)
        ensures
            r@ == Seq::new(4, |i: int| lane::mask_i32(self@[i] < rhs@[i])),
            r.is_mask(),
    {
        let mut out = [0i32; 4];
        let mut i: usize = 0;
        while i < 4
            invariant
                i <= 4,
                forall|j: int| 0 <= j < i ==> out[j] == lane::mask_i32(self@[j] < rhs@[j]),
            decreases 4 - i,
        {
            out[i] = if self.lanes[i] < rhs.lanes[i] { -1 } else { 0 };
            i += 1;
        }
        let r = I32x4 { lanes: out };
        assert(r@ =~= Seq::new(4, |j: int| lane::mask_i32(self@[j] < rhs@[j])));
        r
    }

    /// Lane-wise `self <= rhs`, as a mask: the complement of `cmp_gt`.
    pub fn cmp_lte(self, rhs: Self) -> (r: Self)
        ensures
            r@ == Seq::new(4, |i: int| lane::mask_i32(self@[i] <= rhs@[i])),
            r.is_mask(),
    {
        let r = self.cmp_gt(rhs).bit_not();
        proof {
            lane::lemma_bits_i32(0);
        }
        assert(r@ =~= Seq::new(4, |i: int| lane::mask_i32(self@[i] <= rhs@[i])));
        r
    }

    /// Lane-wise `self > rhs`, as a mask.
    pub fn cmp_gt(self, rhs: Self) -> (r: Self)
        ensures
            r@ == Seq::new(4, |i: int| lane::mask_i32(self@[i] > rhs@[i])),
            r.is_mask(),
    {
        let mut out = [0i32; 4];
        let mut i: usize = 0;
        while i < 4
            invariant
                i <= 4,
                forall|j: int| 0 <= j < i ==> out[j] == lane::mask_i32(self@[j] > rhs@[j]),
            decreases 4 - i,
        {
            out[i] = if self.lanes[i] > rhs.lanes[i] { -1 } else { 0 };
            i += 1;
        }
        let r = I32x4 { lanes: out };
        assert(r@ =~= Seq::new(4, |j: int| lane::mask_i32(self@[j] > rhs@[j])));
        r
    }

    /// Lane-wise `self >= rhs`, as a mask: the complement of `cmp_lt`.
    pub fn cmp_gte(self, rhs: Self) -> (r: Self)
        ensures
            r@ == Seq::new(4, |i: int| lane::mask_i32(self@[i] >= rhs@[i])),
            r.is_mask(),
    {
        let r = self.cmp_lt(rhs).bit_not();
        proof {
            lane::lemma_bits_i32(0);
        }
        assert(r@ =~= Seq::new(4, |i: int| lane::mask_i32(self@[i] >= rhs@[i])));
        r
    }

    /// Lane-wise maximum.
    pub fn max(self, rhs: Self) -> (r: Self)
        ensures
            r@ == Seq::new(4, |i: int| lane::max_i32(self@[i], rhs@[i])),
    {
        let mut out = [0i32; 4];
        let mut i: usize = 0;
        while i < 4
            invariant
                i <= 4,
                forall|j: int| 0 <= j < i ==> out[j] == lane::max_i32(self@[j], rhs@[j]),
            decreases 4 - i,
        {
            out[i] = if self.lanes[i] > rhs.lanes[i] { self.lanes[i] } else { rhs.lanes[i] };
            i += 1;
        }
        let r = I32x4 { lanes: out };
        assert(r@ =~= Seq::new(4, |j: int| lane::max_i32(self@[j], rhs@[j])));
        r
    }

    /// Lane-wise minimum.
    pub fn min(self, rhs: Self) -> (r: Self)
        ensures
            r@ == Seq::new(4, |i: int| lane::min_i32(self@[i], rhs@[i])),
    {
        let mut out = [0i32; 4];
        let mut i: usize = 0;
        while i < 4
            invariant
                i <= 4,
                forall|j: int| 0 <= j < i ==> out[j] == lane::min_i32(self@[j], rhs@[j]),
            decreases 4 - i,
        {
            out[i] = if self.lanes[i] < rhs.lanes[i] { self.lanes[i] } else { rhs.lanes[i] };
            i += 1;
        }
        let r = I32x4 { lanes: out };
        assert(r@ =~= Seq::new(4, |j: int| lane::min_i32(self@[j], rhs@[j])));
        r
    }

    /// Shifts each lane's bit pattern left by `rhs`, filling with zeros.
    pub fn shl(self, rhs: i32) -> (r: Self)
        requires
            0 <= rhs < 32,
        ensures
            r@ == Seq::new(4, |i: int| lane::shl_i32(self@[i], rhs as u32)),
    {
        let by = rhs as u32;
        let mut out = [0i32; 4];
        let mut i: usize = 0;
        while i < 4
            invariant
                i <= 4,
                by < 32,
                forall|j: int| 0 <= j < i ==> out[j] == lane::shl_i32(self@[j], by),
            decreases 4 - i,
        {
            out[i] = ((self.lanes[i] as u32) << by) as i32;
            i += 1;
        }
        let r = I32x4 { lanes: out };
        assert(r@ =~= Seq::new(4, |j: int| lane::shl_i32(self@[j], rhs as u32)));
        r
    }

    /// Shifts each lane's bit pattern right by `rhs`, filling with zeros.
    pub fn shr(self, rhs: i32) -> (r: Self)
        requires
            0 <= rhs < 32,
        ensures
            r@ == Seq::new(4, |i: int| lane::shr_i32(self@[i], rhs as u32)),
    {
        let by = rhs as u32;
        let mut out = [0i32; 4];
        let mut i: usize = 0;
        while i < 4
            invariant
                i <= 4,
                by < 32,
                forall|j: int| 0 <= j < i ==> out[j] == lane::shr_i32(self@[j], by),
            decreases 4 - i,
        {
            out[i] = ((self.lanes[i] as u32) >> by) as i32;
            i += 1;
        }
        let r = I32x4 { lanes: out };
        assert(r@ =~= Seq::new(4, |j: int| lane::shr_i32(self@[j], rhs as u32)));
        r
    }

    /// `shl` by an amount fixed when the program is built.
    pub fn shl_const<const BY: u32>(self) -> (r: Self)
        requires
            BY < 32,
        ensures
            r@ == Seq::new(4, |i: int| lane::shl_i32(self@[i], BY)),
    {
        self.shl(BY as i32)
    }

    /// `shr` by an amount fixed when the program is built.
    pub fn shr_const<const BY: u32>(self) -> (r: Self)
        requires
            BY < 32,
        ensures
            r@ == Seq::new(4, |i: int| lane::shr_i32(self@[i], BY)),
    {
        self.shr(BY as i32)
    }

    /// Sign-extends the lanes to 64 bits: lanes 0 to 1 form the first result, lanes
    /// 2 to 3 the second.
    pub fn extend_to_i64(self) -> (r: (I64x2, I64x2))
        ensures
            r.0@ == Seq::new(2, |k: int| self@[k] as i64),
            r.1@ == Seq::new(2, |k: int| self@[k + 2] as i64),
    {
        let mut lo = [0i64; 2];
        let mut hi = [0i64; 2];
        let mut k: usize = 0;
        while k < 2
            invariant
                k <= 2,
                forall|j: int| 0 <= j < k ==> lo[j] == self@[j] as i64,
                forall|j: int| 0 <= j < k ==> hi[j] == self@[j + 2] as i64,
            decreases 2 - k,
        {
            lo[k] = self.lanes[k] as i64;
            hi[k] = self.lanes[k + 2] as i64;
            k += 1;
        }
        let r = (I64x2::from_underlying_value(lo), I64x2::from_underlying_value(hi));
        assert(r.0@ =~= Seq::new(2, |k: int| self@[k] as i64));
        assert(r.1@ =~= Seq::new(2, |k: int| self@[k + 2] as i64));
        r
    }

    /// Zero-extends the lanes' bit patterns to 64 bits: lanes 0 to 1 form the first
    /// result, lanes 2 to 3 the second.
    pub fn unsigned_extend_to_i64(self) -> (r: (I64x2, I64x2))
        ensures
            r.0@ == Seq::new(2, |k: int| self@[k] as u32 as i64),
            r.1@ == Seq::new(2, |k: int| self@[k + 2] as u32 as i64),
    {
        let mut lo = [0i64; 2];
        let mut hi = [0i64; 2];
        let mut k: usize = 0;
        while k < 2
            invariant
                k <= 2,
                forall|j: int| 0 <= j < k ==> lo[j] == self@[j] as u32 as i64,
                forall|j: int| 0 <= j < k ==> hi[j] == self@[j + 2] as u32 as i64,
            decreases 2 - k,
        {
            lo[k] = self.lanes[k] as u32 as i64;
            hi[k] = self.lanes[k + 2] as u32 as i64;
            k += 1;
        }
        let r = (I64x2::from_underlying_value(lo), I64x2::from_underlying_value(hi));
        assert(r.0@ =~= Seq::new(2, |k: int| self@[k] as u32 as i64));
        assert(r.1@ =~= Seq::new(2, |k: int| self@[k + 2] as u32 as i64));
        r
    }

    /// Adds lane `k` to lane `k + 2`, as 64-bit lanes.
    pub fn partial_horizontal_add(self) -> (r: I64x2)
        ensures
            r@ == Seq::new(2, |k: int| (self@[k] + self@[k + 2]) as i64),
    {
        let (lo, hi) = self.extend_to_i64();
        let r = lo.add(hi);
        assert(r@ =~= Seq::new(2, |k: int| (self@[k] + self@[k + 2]) as i64));
        r
    }

    /// Adds the bit pattern of lane `k`, read unsigned, to that of lane `k + 2`, as
    /// 64-bit lanes.
    pub fn partial_horizontal_unsigned_add(self) -> (r: I64x2)
        ensures
            r@ == Seq::new(2, |k: int| (self@[k] as u32 + self@[k + 2] as u32) as i64),
    {
        let (lo, hi) = self.unsigned_extend_to_i64();
        let r = lo.add(hi);
        assert(r@ =~= Seq::new(2, |k: int| (self@[k] as u32 + self@[k + 2] as u32) as i64));
        r
    }

    /// The sum of all lanes, by repeated pairwise addition.
    pub fn horizontal_add(self) -> (r: i64)
        ensures
            r == lane::sum_of(|i: int| self@[i] as int, 4),
    {
        let r = self.partial_horizontal_add().partial_horizontal_add();
        proof {
            reveal_with_fuel(lane::sum_of, 5);
        }
        r
    }

    /// The sum of all lanes' bit patterns read unsigned, by repeated pairwise addition.
    pub fn horizontal_unsigned_add(self) -> (r: i64)
        ensures
            r == lane::sum_of(|i: int| self@[i] as u32 as int, 4),
    {
        let r = self.partial_horizontal_unsigned_add().horizontal_unsigned_add();
        proof {
            reveal_with_fuel(lane::sum_of, 5);
        }
        r
    }

    /// The same bits read as 32-bit floating-point lanes.
    pub fn bitcast_f32(self) -> (r: F32x4)
        ensures
            r@ == Seq::new(4, |i: int| self@[i] as u32),
    {
        let mut out = [0u32; 4];
        let mut i: usize = 0;
        while i < 4
            invariant
                i <= 4,
                forall|j: int| 0 <= j < i ==> out[j] == self@[j] as u32,
            decreases 4 - i,
        {
            out[i] = self.lanes[i] as u32;
            i += 1;
        }
        let r = F32x4::from_underlying_value(out);
        assert(r@ =~= Seq::new(4, |j: int| self@[j] as u32));
        r
    }
}

} // verus!
