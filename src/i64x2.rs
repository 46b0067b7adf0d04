//! Two lanes of 64-bit integers in one 128-bit register.
use vstd::prelude::*;

use crate::lane;
use crate::f64x2::F64x2;

verus! {

/// Two lanes of 64-bit two's-complement integers held in one 128-bit register, lane
/// 0 first.
#[derive(Clone, Copy)]
pub struct I64x2 {
    lanes: [i64; 2],
}

impl View for I64x2 {
    type V = Seq<i64>;

    closed spec fn view(&self) -> Seq<i64> {
        self.lanes@
    }
}

impl I64x2 {
    /// Every lane is a comparison result: no bits set, or all of them.
    pub open spec fn is_mask(self) -> bool {
        lane::all_masks_i64(self@)
    }

    /// A value always has exactly 2 lanes.
    pub broadcast proof fn lemma_lane_count(self)
        ensures
            #[trigger] self@.len() == 2,
    {
    }

    /// The value with every bit clear.
    pub fn zeroes() -> (r: Self)
        ensures
            r@ == Seq::new(2, |i: int| 0i64),
    {
        let r = I64x2 { lanes: [0i64; 2] };
        assert(r@ =~= Seq::new(2, |i: int| 0i64));
        r
    }

    /// `x` in every lane.
    pub fn set1(x: i64) -> (r: Self)
        ensures
            r@ == Seq::new(2, |i: int| x),
    {
        let r = I64x2 { lanes: [x; 2] };
        assert(r@ =~= Seq::new(2, |i: int| x));
        r
    }

    /// The lanes of `array`, in order.
    pub fn load_from_array(array: [i64; 2]) -> (r: Self)
        ensures
            r@ == array@,
    {
        I64x2 { lanes: array }
    }

    /// The first 2 elements of `src`, in order; `src` needs no particular alignment.
    pub fn load_from_slice(src: &[i64]) -> (r: Self)
        requires
            src@.len() >= 2,
        ensures
            r@ == src@.subrange(0, 2),
    {
        let mut out = [0i64; 2];
        let mut i: usize = 0;
        while i < 2
            invariant
                i <= 2,
                src@.len() >= 2,
                forall|j: int| 0 <= j < i ==> out[j] == src@[j],
            decreases 2 - i,
        {
            out[i] = src[i];
            i += 1;
        }
        let r = I64x2 { lanes: out };
        assert(r@ =~= src@.subrange(0, 2));
        r
    }

    /// Writes the lanes over the first 2 elements of `dst` and leaves the rest as it was.
    pub fn copy_to_slice(self, dst: &mut [i64])
        requires
            old(dst)@.len() >= 2,
        ensures
            final(dst)@ == self@ + old(dst)@.subrange(2, old(dst)@.len() as int),
    {
        let mut i: usize = 0;
        while i < 2
            invariant
                i <= 2,
                old(dst)@.len() >= 2,
                dst@.len() == old(dst)@.len(),
                forall|j: int| 0 <= j < i ==> dst@[j] == self@[j],
                forall|j: int| i <= j < dst@.len() ==> dst@[j] == old(dst)@[j],
            decreases 2 - i,
        {
            dst[i] = self.lanes[i];
            i += 1;
        }
        assert(dst@ =~= self@ + old(dst)@.subrange(2, old(dst)@.len() as int));
    }

    /// The register's contents as an array of lanes.
    pub fn underlying_value(self) -> (r: [i64; 2])
        ensures
            r@ == self@,
    {
        self.lanes
    }

    /// The register's contents, to be changed in place.
    pub fn underlying_value_mut(&mut self) -> (r: &mut [i64; 2])
        ensures
            (*r)@ == old(self)@,
            final(self)@ == (*final(r))@,
    {
        &mut self.lanes
    }

    /// The value whose register holds `value`.
    pub fn from_underlying_value(value: [i64; 2]) -> (r: Self)
        ensures
            r@ == value@,
    {
        I64x2 { lanes: value }
    }

    /// Lane `i`.
    pub fn lane(self, i: usize) -> (r: i64)
        requires
            i < 2,
        ensures
            r == self@[i as int],
    {
        self.lanes[i]
    }

    /// Lane-wise wrapping addition.
    pub fn add(self, rhs: Self) -> (r: Self)
        ensures
            r@ == Seq::new(2, |i: int| self@[i].wrapping_add(rhs@[i])),
    {
        let mut out = [0i64; 2];
        let mut i: usize = 0;
        while i < 2
            invariant
                i <= 2,
                forall|j: int| 0 <= j < i ==> out[j] == self@[j].wrapping_add(rhs@[j]),
            decreases 2 - i,
        {
            out[i] = self.lanes[i].wrapping_add(rhs.lanes[i]);
            i += 1;
        }
        let r = I64x2 { lanes: out };
        assert(r@ =~= Seq::new(2, |j: int| self@[j].wrapping_add(rhs@[j])));
        r
    }

    /// Lane-wise wrapping subtraction.
    pub fn sub(self, rhs: Self) -> (r: Self)
        ensures
            r@ == Seq::new(2, |i: int| self@[i].wrapping_sub(rhs@[i])),
    {
        let mut out = [0i64; 2];
        let mut i: usize = 0;
        while i < 2
            invariant
                i <= 2,
                forall|j: int| 0 <= j < i ==> out[j] == self@[j].wrapping_sub(rhs@[j]),
            decreases 2 - i,
        {
            out[i] = self.lanes[i].wrapping_sub(rhs.lanes[i]);
            i += 1;
        }
        let r = I64x2 { lanes: out };
        assert(r@ =~= Seq::new(2, |j: int| self@[j].wrapping_sub(rhs@[j])));
        r
    }

    /// Lane-wise wrapping multiplication, keeping the low 64 bits of each product.
    pub fn mul(self, rhs: Self) -> (r: Self)
        ensures
            r@ == Seq::new(2, |i: int| self@[i].wrapping_mul(rhs@[i])),
    {
        let mut out = [0i64; 2];
        let mut i: usize = 0;
        while i < 2
            invariant
                i <= 2,
                forall|j: int| 0 <= j < i ==> out[j] == self@[j].wrapping_mul(rhs@[j]),
            decreases 2 - i,
        {
            out[i] = self.lanes[i].wrapping_mul(rhs.lanes[i]);
            i += 1;
        }
        let r = I64x2 { lanes: out };
        assert(r@ =~= Seq::new(2, |j: int| self@[j].wrapping_mul(rhs@[j])));
        r
    }

    /// Bitwise and.
    pub fn bit_and(self, rhs: Self) -> (r: Self)
        ensures
            r@ == Seq::new(2, |i: int| self@[i] & rhs@[i]),
    {
        let mut out = [0i64; 2];
        let mut i: usize = 0;
        while i < 2
            invariant
                i <= 2,
                forall|j: int| 0 <= j < i ==> out[j] == self@[j] & rhs@[j],
            decreases 2 - i,
        {
            out[i] = self.lanes[i] & rhs.lanes[i];
            i += 1;
        }
        let r = I64x2 { lanes: out };
        assert(r@ =~= Seq::new(2, |j: int| self@[j] & rhs@[j]));
        r
    }

    /// Bitwise or.
    pub fn bit_or(self, rhs: Self) -> (r: Self)
        ensures
            r@ == Seq::new(2, |i: int| self@[i] | rhs@[i]),
    {
        let mut out = [0i64; 2];
        let mut i: usize = 0;
        while i < 2
            invariant
                i <= 2,
                forall|j: int| 0 <= j < i ==> out[j] == self@[j] | rhs@[j],
            decreases 2 - i,
        {
            out[i] = self.lanes[i] | rhs.lanes[i];
            i += 1;
        }
        let r = I64x2 { lanes: out };
        assert(r@ =~= Seq::new(2, |j: int| self@[j] | rhs@[j]));
        r
    }

    /// Bitwise exclusive or.
    pub fn bit_xor(self, rhs: Self) -> (r: Self)
        ensures
            r@ == Seq::new(2, |i: int| self@[i] ^ rhs@[i]),
    {
        let mut out = [0i64; 2];
        let mut i: usize = 0;
        while i < 2
            invariant
                i <= 2,
                forall|j: int| 0 <= j < i ==> out[j] == self@[j] ^ rhs@[j],
            decreases 2 - i,
        {
            out[i] = self.lanes[i] ^ rhs.lanes[i];
            i += 1;
        }
        let r = I64x2 { lanes: out };
        assert(r@ =~= Seq::new(2, |j: int| self@[j] ^ rhs@[j]));
        r
    }

    /// Bitwise complement, as exclusive or with all bits set.
    pub fn bit_not(self) -> (r: Self)
        ensures
            r@ == Seq::new(2, |i: int| lane::not_i64(self@[i])),
    {
        let r = Self::set1(-1).bit_xor(self);
        assert forall|i: int| 0 <= i < 2 implies #[trigger] r@[i] == lane::not_i64(self@[i]) by {
            lane::lemma_bits_i64(self@[i]);
        }
        assert(r@ =~= Seq::new(2, |i: int| lane::not_i64(self@[i])));
        r
    }

    /// Lane-wise absolute value, as `(x ^ m) - m` with `m` the mask of `x < 0`; the
    /// minimum value stays as it is.
    pub fn abs(self) -> (r: Self)
        ensures
            r@ == Seq::new(2, |i: int| lane::abs_i64(self@[i])),
    {
        let mask = self.cmp_lt(Self::zeroes());
        let r = self.bit_xor(mask).sub(mask);
        assert forall|i: int| 0 <= i < 2 implies #[trigger] r@[i] == lane::abs_i64(self@[i]) by {
            lane::lemma_bits_i64(self@[i]);
        }
        assert(r@ =~= Seq::new(2, |i: int| lane::abs_i64(self@[i])));
        r
    }

    /// The complement of `self`, and `rhs`: `!self & rhs`.
    pub fn and_not(self, rhs: Self) -> (r: Self)
        ensures
            r@ == Seq::new(2, |i: int| lane::not_i64(self@[i]) & rhs@[i]),
    {
        let mut out = [0i64; 2];
        let mut i: usize = 0;
        while i < 2
            invariant
                i <= 2,
                forall|j: int| 0 <= j < i ==> out[j] == lane::not_i64(self@[j]) & rhs@[j],
            decreases 2 - i,
        {
            out[i] = !self.lanes[i] & rhs.lanes[i];
            i += 1;
        }
        let r = I64x2 { lanes: out };
        assert(r@ =~= Seq::new(2, |j: int| lane::not_i64(self@[j]) & rhs@[j]));
        r
    }

    /// Per lane, `b` where the mask lane `self` has its top bit set and `a` elsewhere; on
    /// a comparison mask, `b` where the lane is all ones.
    pub fn blendv(self, a: Self, b: Self) -> (r: Self)
        ensures
            r@ == Seq::new(2, |i: int| lane::select_i64(self@[i], a@[i], b@[i])),
            self.is_mask() ==> r@ == Seq::new(
                2,
                |i: int| if self@[i] == 0 { a@[i] } else { b@[i] },
            ),
    {
        let mut out = [0i64; 2];
        let mut i: usize = 0;
        while i < 2
            invariant
                i <= 2,
                forall|j: int| 0 <= j < i ==> out[j] == lane::select_i64(self@[j], a@[j], b@[j]),
            decreases 2 - i,
        {
            out[i] = if self.lanes[i] < 0 { b.lanes[i] } else { a.lanes[i] };
            i += 1;
        }
        let r = I64x2 { lanes: out };
        assert(r@ =~= Seq::new(2, |j: int| lane::select_i64(self@[j], a@[j], b@[j])));
        r
    }

    /// Lane-wise `self == rhs`, as a mask.
    pub fn cmp_eq(self, rhs: Self) -> (r: Self)
        ensures
            r@ == Seq::new(2, |i: int| lane::mask_i64(self@[i] == rhs@[i])),
            r.is_mask(),
    {
        let mut out = [0i64; 2];
        let mut i: usize = 0;
        while i < 2
            invariant
                i <= 2,
                forall|j: int| 0 <= j < i ==> out[j] == lane::mask_i64(self@[j] == rhs@[j]),
            decreases 2 - i,
        {
            out[i] = if self.lanes[i] == rhs.lanes[i] { -1 } else { 0 };
            i += 1;
        }
        let r = I64x2 { lanes: out };
        assert(r@ =~= Seq::new(2, |j: int| lane::mask_i64(self@[j] == rhs@[j])));
        r
    }

    /// Lane-wise `self != rhs`, as a mask: the complement of `cmp_eq`.
    pub fn cmp_neq(self, rhs: Self) -> (r: Self)
        ensures
            r@ == Seq::new(2, |i: int| lane::mask_i64(self@[i] != rhs@[i])),
            r.is_mask(),
    {
        let r = self.cmp_eq(rhs).bit_not();
        proof {
            lane::lemma_bits_i64(0);
        }
        assert(r@ =~= Seq::new(2, |i: int| lane::mask_i64(self@[i] != rhs@[i])));
        r
    }

    /// Lane-wise `self < rhs`, as a mask.
    pub fn cmp_lt(self, rhs: Self) -> (r: Self)
        ensures
            r@ == Seq::new(2, |i: int| lane::mask_i64(self@[i] < rhs@[i])),
            r.is_mask(),
    {
        let mut out = [0i64; 2];
        let mut i: usize = 0;
        while i < 2
            invariant
                i <= 2,
                forall|j: int| 0 <= j < i ==> out[j] == lane::mask_i64(self@[j] < rhs@[j]),
            decreases 2 - i,
        {
            out[i] = if self.lanes[i] < rhs.lanes[i] { -1 } else { 0 };
            i += 1;
        }
        let r = I64x2 { lanes: out };
        assert(r@ =~= Seq::new(2, |j: int| lane::mask_i64(self@[j] < rhs@[j])));
        r
    }

    /// Lane-wise `self <= rhs`, as a mask.
    pub fn cmp_lte(self, rhs: Self) -> (r: Self)
        ensures
            r@ == Seq::new(2, |i: int| lane::mask_i64(self@[i] <= rhs@[i])),
            r.is_mask(),
    {
        let mut out = [0i64; 2];
        let mut i: usize = 0;
        while i < 2
            invariant
                i <= 2,
                forall|j: int| 0 <= j < i ==> out[j] == lane::mask_i64(self@[j] <= rhs@[j]),
            decreases 2 - i,
        {
            out[i] = if self.lanes[i] <= rhs.lanes[i] { -1 } else { 0 };
            i += 1;
        }
        let r = I64x2 { lanes: out };
        assert(r@ =~= Seq::new(2, |j: int| lane::mask_i64(self@[j] <= rhs@[j])));
        r
    }

    /// Lane-wise `self > rhs`, as a mask.
    pub fn cmp_gt(self, rhs: Self) -> (r: Self)
        ensures
            r@ == Seq::new(2, |i: int| lane::mask_i64(self@[i] > rhs@[i])),
            r.is_mask(),
    {
        let mut out = [0i64; 2];
        let mut i: usize = 0;
        while i < 2
            invariant
                i <= 2,
                forall|j: int| 0 <= j < i ==> out[j] == lane::mask_i64(self@[j] > rhs@[j]),
            decreases 2 - i,
        {
            out[i] = if self.lanes[i] > rhs.lanes[i] { -1 } else { 0 };
            i += 1;
        }
        let r = I64x2 { lanes: out };
        assert(r@ =~= Seq::new(2, |j: int| lane::mask_i64(self@[j] > rhs@[j])));
        r
    }

    /// Lane-wise `self >= rhs`, as a mask.
    pub fn cmp_gte(self, rhs: Self) -> (r: Self)
        ensures
            r@ == Seq::new(2, |i: int| lane::mask_i64(self@[i] >= rhs@[i])),
            r.is_mask(),
    {
        let mut out = [0i64; 2];
        let mut i: usize = 0;
        while i < 2
            invariant
                i <= 2,
                forall|j: int| 0 <= j < i ==> out[j] == lane::mask_i64(self@[j] >= rhs@[j]),
            decreases 2 - i,
        {
            out[i] = if self.lanes[i] >= rhs.lanes[i] { -1 } else { 0 };
            i += 1;
        }
        let r = I64x2 { lanes: out };
        assert(r@ =~= Seq::new(2, |j: int| lane::mask_i64(self@[j] >= rhs@[j])));
        r
    }

    /// Lane-wise maximum, chosen by a greater-than mask.
    pub fn max(self, rhs: Self) -> (r: Self)
        ensures
            r@ == Seq::new(2, |i: int| lane::max_i64(self@[i], rhs@[i])),
    {
        let cmp = self.cmp_gt(rhs);
        let r = cmp.blendv(rhs, self);
        assert(r@ =~= Seq::new(2, |i: int| lane::max_i64(self@[i], rhs@[i])));
        r
    }

    /// Lane-wise minimum, chosen by a less-than mask.
    pub fn min(self, rhs: Self) -> (r: Self)
        ensures
            r@ == Seq::new(2, |i: int| lane::min_i64(self@[i], rhs@[i])),
    {
        let cmp = self.cmp_lt(rhs);
        let r = cmp.blendv(rhs, self);
        assert(r@ =~= Seq::new(2, |i: int| lane::min_i64(self@[i], rhs@[i])));
        r
    }

    /// Shifts each lane's bit pattern left by `rhs`, filling with zeros.
    pub fn shl(self, rhs: i32) -> (r: Self)
        requires
            0 <= rhs < 64,
        ensures
            r@ == Seq::new(2, |i: int| lane::shl_i64(self@[i], rhs as u32)),
    {
        let by = rhs as u32;
        let mut out = [0i64; 2];
        let mut i: usize = 0;
        while i < 2
            invariant
                i <= 2,
                by < 64,
                forall|j: int| 0 <= j < i ==> out[j] == lane::shl_i64(self@[j], by),
            decreases 2 - i,
        {
            out[i] = ((self.lanes[i] as u64) << by) as i64;
            i += 1;
        }
        let r = I64x2 { lanes: out };
        assert(r@ =~= Seq::new(2, |j: int| lane::shl_i64(self@[j], rhs as u32)));
        r
    }

    /// Shifts each lane's bit pattern right by `rhs`, filling with zeros.
    pub fn shr(self, rhs: i32) -> (r: Self)
        requires
            0 <= rhs < 64,
        ensures
            r@ == Seq::new(2, |i: int| lane::shr_i64(self@[i], rhs as u32)),
    {
        let by = rhs as u32;
        let mut out = [0i64; 2];
        let mut i: usize = 0;
        while i < 2
            invariant
                i <= 2,
                by < 64,
                forall|j: int| 0 <= j < i ==> out[j] == lane::shr_i64(self@[j], by),
            decreases 2 - i,
        {
            out[i] = ((self.lanes[i] as u64) >> by) as i64;
            i += 1;
        }
        let r = I64x2 { lanes: out };
        assert(r@ =~= Seq::new(2, |j: int| lane::shr_i64(self@[j], rhs as u32)));
        r
    }

    /// `shl` by an amount fixed when the program is built.
    pub fn shl_const<const BY: u32>(self) -> (r: Self)
        requires
            BY < 64,
        ensures
            r@ == Seq::new(2, |i: int| lane::shl_i64(self@[i], BY)),
    {
        self.shl(BY as i32)
    }

    /// `shr` by an amount fixed when the program is built.
    pub fn shr_const<const BY: u32>(self) -> (r: Self)
        requires
            BY < 64,
        ensures
            r@ == Seq::new(2, |i: int| lane::shr_i64(self@[i], BY)),
    {
        self.shr(BY as i32)
    }

    /// The wrapping sum of the two lanes.
    pub fn partial_horizontal_add(self) -> (r: i64)
        ensures
            r == self@[0].wrapping_add(self@[1]),
    {
        self.lanes[0].wrapping_add(self.lanes[1])
    }

    /// The wrapping sum of the two lanes.
    pub fn horizontal_add(self) -> (r: i64)
        ensures
            r == self@[0].wrapping_add(self@[1]),
    {
        self.partial_horizontal_add()
    }

    /// The wrapping sum of the two lanes; at full width the unsigned and the signed
    /// sums have the same bits.
    pub fn horizontal_unsigned_add(self) -> (r: i64)
        ensures
            r == self@[0].wrapping_add(self@[1]),
    {
        self.partial_horizontal_add()
    }

    /// The same bits read as 64-bit floating-point lanes.
    pub fn bitcast_f64(self) -> (r: F64x2)
        ensures
            r@ == Seq::new(2, |i: int| self@[i] as u64),
    {
        let mut out = [0u64; 2];
        let mut i: usize = 0;
        while i < 2
            invariant
                i <= 2,
                forall|j: int| 0 <= j < i ==> out[j] == self@[j] as u64,
            decreases 2 - i,
        {
            out[i] = self.lanes[i] as u64;
            i += 1;
        }
        let r = F64x2::from_underlying_value(out);
        assert(r@ =~= Seq::new(2, |j: int| self@[j] as u64));
        r
    }
}

} // verus!
