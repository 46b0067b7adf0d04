//! Eight lanes of 16-bit integers in one 128-bit register.
use vstd::prelude::*;

use crate::lane;
use crate::i32x4::I32x4;

verus! {

/// Eight lanes of 16-bit two's-complement integers held in one 128-bit register, lane
/// 0 first.
#[derive(Clone, Copy)]
pub struct I16x8 {
    lanes: [i16; 8],
}

impl View for I16x8 {
    type V = Seq<i16>;

    closed spec fn view(&self) -> Seq<i16> {
        self.lanes@
    }
}

impl I16x8 {
    /// Every lane is a comparison result: no bits set, or all of them.
    pub open spec fn is_mask(self) -> bool {
        lane::all_masks_i16(self@)
    }

    /// A value always has exactly 8 lanes.
    pub broadcast proof fn lemma_lane_count(self)
        ensures
            #[trigger] self@.len() == 8,
    {
    }

    /// The value with every bit clear.
    pub fn zeroes() -> (r: Self)
        ensures
            r@ == Seq::new(8, |i: int| 0i16),
    {
        let r = I16x8 { lanes: [0i16; 8] };
        assert(r@ =~= Seq::new(8, |i: int| 0i16));
        r
    }

    /// `x` in every lane.
    pub fn set1(x: i16) -> (r: Self)
        ensures
            r@ == Seq::new(8, |i: int| x),
    {
        let r = I16x8 { lanes: [x; 8] };
        assert(r@ =~= Seq::new(8, |i: int| x));
        r
    }

    /// The lanes of `array`, in order.
    pub fn load_from_array(array: [i16; 8]) -> (r: Self)
        ensures
            r@ == array@,
    {
        I16x8 { lanes: array }
    }

    /// The first 8 elements of `src`, in order; `src` needs no particular alignment.
    pub fn load_from_slice(src: &[i16]) -> (r: Self)
        requires
            src@.len() >= 8,
        ensures
            r@ == src@.subrange(0, 8),
    {
        let mut out = [0i16; 8];
        let mut i: usize = 0;
        while i < 8
            invariant
                i <= 8,
                src@.len() >= 8,
                forall|j: int| 0 <= j < i ==> out[j] == src@[j],
            decreases 8 - i,
        {
            out[i] = src[i];
            i += 1;
        }
        let r = I16x8 { lanes: out };
        assert(r@ =~= src@.subrange(0, 8));
        r
    }

    /// Writes the lanes over the first 8 elements of `dst` and leaves the rest as it was.
    pub fn copy_to_slice(self, dst: &mut [i16])
        requires
            old(dst)@.len() >= 8,
        ensures
            final(dst)@ == self@ + old(dst)@.subrange(8, old(dst)@.len() as int),
    {
        let mut i: usize = 0;
        while i < 8
            invariant
                i <= 8,
                old(dst)@.len() >= 8,
                dst@.len() == old(dst)@.len(),
                forall|j: int| 0 <= j < i ==> dst@[j] == self@[j],
                forall|j: int| i <= j < dst@.len() ==> dst@[j] == old(dst)@[j],
            decreases 8 - i,
        {
            dst[i] = self.lanes[i];
            i += 1;
        }
        assert(dst@ =~= self@ + old(dst)@.subrange(8, old(dst)@.len() as int));
    }

    /// The register's contents as an array of lanes.
    pub fn underlying_value(self) -> (r: [i16; 8])
        ensures
            r@ == self@,
    {
        self.lanes
    }

    /// The register's contents, to be changed in place.
    pub fn underlying_value_mut(&mut self) -> (r: &mut [i16; 8])
        ensures
            (*r)@ == old(self)@,
            final(self)@ == (*final(r))@,
    {
        &mut self.lanes
    }

    /// The value whose register holds `value`.
    pub fn from_underlying_value(value: [i16; 8]) -> (r: Self)
        ensures
            r@ == value@,
    {
        I16x8 { lanes: value }
    }

    /// Lane `i`.
    pub fn lane(self, i: usize) -> (r: i16)
        requires
            i < 8,
        ensures
            r == self@[i as int],
    {
        self.lanes[i]
    }

    /// Lane-wise wrapping addition.
    pub fn add(self, rhs: Self) -> (r: Self)
        ensures
            r@ == Seq::new(8, |i: int| self@[i].wrapping_add(rhs@[i])),
    {
        let mut out = [0i16; 8];
        let mut i: usize = 0;
        while i < 8
            invariant
                i <= 8,
                forall|j: int| 0 <= j < i ==> out[j] == self@[j].wrapping_add(rhs@[j]),
            decreases 8 - i,
        {
            out[i] = self.lanes[i].wrapping_add(rhs.lanes[i]);
            i += 1;
        }
        let r = I16x8 { lanes: out };
        assert(r@ =~= Seq::new(8, |j: int| self@[j].wrapping_add(rhs@[j])));
        r
    }

    /// Lane-wise wrapping subtraction.
    pub fn sub(self, rhs: Self) -> (r: Self)
        ensures
            r@ == Seq::new(8, |i: int| self@[i].wrapping_sub(rhs@[i])),
    {
        let mut out = [0i16; 8];
        let mut i: usize = 0;
        while i < 8
            invariant
                i <= 8,
                forall|j: int| 0 <= j < i ==> out[j] == self@[j].wrapping_sub(rhs@[j]),
            decreases 8 - i,
        {
            out[i] = self.lanes[i].wrapping_sub(rhs.lanes[i]);
            i += 1;
        }
        let r = I16x8 { lanes: out };
        assert(r@ =~= Seq::new(8, |j: int| self@[j].wrapping_sub(rhs@[j])));
        r
    }

    /// Lane-wise wrapping multiplication, keeping the low 16 bits of each product.
    pub fn mul(self, rhs: Self) -> (r: Self)
        ensures
            r@ == Seq::new(8, |i: int| self@[i].wrapping_mul(rhs@[i])),
    {
        let mut out = [0i16; 8];
        let mut i: usize = 0;
        while i < 8
            invariant
                i <= 8,
                forall|j: int| 0 <= j < i ==> out[j] == self@[j].wrapping_mul(rhs@[j]),
            decreases 8 - i,
        {
            out[i] = self.lanes[i].wrapping_mul(rhs.lanes[i]);
            i += 1;
        }
        let r = I16x8 { lanes: out };
        assert(r@ =~= Seq::new(8, |j: int| self@[j].wrapping_mul(rhs@[j])));
        r
    }

    /// Bitwise and.
    pub fn bit_and(self, rhs: Self) -> (r: Self)
        ensures
            r@ == Seq::new(8, |i: int| self@[i] & rhs@[i]),
    {
        let mut out = [0i16; 8];
        let mut i: usize = 0;
        while i < 8
            invariant
                i <= 8,
                forall|j: int| 0 <= j < i ==> out[j] == self@[j] & rhs@[j],
            decreases 8 - i,
        {
            out[i] = self.lanes[i] & rhs.lanes[i];
            i += 1;
        }
        let r = I16x8 { lanes: out };
        assert(r@ =~= Seq::new(8, |j: int| self@[j] & rhs@[j]));
        r
    }

    /// Bitwise or.
    pub fn bit_or(self, rhs: Self) -> (r: Self)
        ensures
            r@ == Seq::new(8, |i: int| self@[i] | rhs@[i]),
    {
        let mut out = [0i16; 8];
        let mut i: usize = 0;
        while i < 8
            invariant
                i <= 8,
                forall|j: int| 0 <= j < i ==> out[j] == self@[j] | rhs@[j],
            decreases 8 - i,
        {
            out[i] = self.lanes[i] | rhs.lanes[i];
            i += 1;
        }
        let r = I16x8 { lanes: out };
        assert(r@ =~= Seq::new(8, |j: int| self@[j] | rhs@[j]));
        r
    }

    /// Bitwise exclusive or.
    pub fn bit_xor(self, rhs: Self) -> (r: Self)
        ensures
            r@ == Seq::new(8, |i: int| self@[i] ^ rhs@[i]),
    {
        let mut out = [0i16; 8];
        let mut i: usize = 0;
        while i < 8
            invariant
                i <= 8,
                forall|j: int| 0 <= j < i ==> out[j] == self@[j] ^ rhs@[j],
            decreases 8 - i,
        {
            out[i] = self.lanes[i] ^ rhs.lanes[i];
            i += 1;
        }
        let r = I16x8 { lanes: out };
        assert(r@ =~= Seq::new(8, |j: int| self@[j] ^ rhs@[j]));
        r
    }

    /// Bitwise complement, as exclusive or with all bits set.
    pub fn bit_not(self) -> (r: Self)
        ensures
            r@ == Seq::new(8, |i: int| lane::not_i16(self@[i])),
    {
        let r = Self::set1(-1).bit_xor(self);
        assert forall|i: int| 0 <= i < 8 implies #[trigger] r@[i] == lane::not_i16(self@[i]) by {
            lane::lemma_bits_i16(self@[i]);
        }
        assert(r@ =~= Seq::new(8, |i: int| lane::not_i16(self@[i])));
        r
    }

    /// Lane-wise absolute value, as `(x ^ m) - m` with `m` the mask of `x < 0`; the
    /// minimum value stays as it is.
    pub fn abs(self) -> (r: Self)
        ensures
            r@ == Seq::new(8, |i: int| lane::abs_i16(self@[i])),
    {
        let mask = self.cmp_lt(Self::zeroes());
        let r = self.bit_xor(mask).sub(mask);
        assert forall|i: int| 0 <= i < 8 implies #[trigger] r@[i] == lane::abs_i16(self@[i]) by {
            lane::lemma_bits_i16(self@[i]);
        }
        assert(r@ =~= Seq::new(8, |i: int| lane::abs_i16(self@[i])));
        r
    }

    /// The complement of `self`, and `rhs`: `!self & rhs`.
    pub fn and_not(self, rhs: Self) -> (r: Self)
        ensures
            r@ == Seq::new(8, |i: int| lane::not_i16(self@[i]) & rhs@[i]),
    {
        let mut out = [0i16; 8];
        let mut i: usize = 0;
        while i < 8
            invariant
                i <= 8,
                forall|j: int| 0 <= j < i ==> out[j] == lane::not_i16(self@[j]) & rhs@[j],
            decreases 8 - i,
        {
            out[i] = !self.lanes[i] & rhs.lanes[i];
            i += 1;
        }
        let r = I16x8 { lanes: out };
        assert(r@ =~= Seq::new(8, |j: int| lane::not_i16(self@[j]) & rhs@[j]));
        r
    }

    /// Per lane, `b` where the mask lane `self` is all ones and `a` elsewhere.
    ///
    /// The lanes equal to all ones are found first, then the two inputs are combined
    /// under that mask.
    pub fn blendv(self, a: Self, b: Self) -> (r: Self)
        ensures
            r@ == Seq::new(8, |i: int| if self@[i] == -1 { b@[i] } else { a@[i] }),
            self.is_mask() ==> r@ == Seq::new(
                8,
                |i: int| if self@[i] == 0 { a@[i] } else { b@[i] },
            ),
    {
        let mask = self.cmp_eq(Self::set1(-1));
        let a_kept = mask.and_not(a);
        let b_kept = mask.bit_and(b);
        let r = a_kept.bit_or(b_kept);
        assert forall|i: int| 0 <= i < 8 implies #[trigger] r@[i] == (if self@[i] == -1 {
            b@[i]
        } else {
            a@[i]
        }) by {
            lane::lemma_bits_i16(a@[i]);
            lane::lemma_bits_i16(b@[i]);
            lane::lemma_bits_i16(0);
        }
        assert(r@ =~= Seq::new(8, |i: int| if self@[i] == -1 { b@[i] } else { a@[i] }));
        r
    }

    /// Lane-wise `self == rhs`, as a mask.
    pub fn cmp_eq(self, rhs: Self) -> (r: Self)
        ensures
            r@ == Seq::new(8, |i: int| lane::mask_i16(self@[i] == rhs@[i])),
            r.is_mask(),
    {
        let mut out = [0i16; 8];
        let mut i: usize = 0;
        while i < 8
            invariant
                i <= 8,
                forall|j: int| 0 <= j < i ==> out[j] == lane::mask_i16(self@[j] == rhs@[j]),
            decreases 8 - i,
        {
            out[i] = if self.lanes[i] == rhs.lanes[i] { -1 } else { 0 };
            i += 1;
        }
        let r = I16x8 { lanes: out };
        assert(r@ =~= Seq::new(8, |j: int| lane::mask_i16(self@[j] == rhs@[j])));
        r
    }

    /// Lane-wise `self != rhs`, as a mask: the complement of `cmp_eq`.
    pub fn cmp_neq(self, rhs: Self) -> (r: Self)
        ensures
            r@ == Seq::new(8, |i: int| lane::mask_i16(self@[i] != rhs@[i])),
            r.is_mask(),
    {
        let r = self.cmp_eq(rhs).bit_not();
        proof {
            lane::lemma_bits_i16(0);
        }
        assert(r@ =~= Seq::new(8, |i: int| lane::mask_i16(self@[i] != rhs@[i])));
        r
    }

    /// Lane-wise `self < rhs`, as a mask.
    pub fn cmp_lt(self, rhs: Self) -> (r: Self)
        ensures
            r@ == Seq::new(8, |i: int| lane::mask_i16(self@[i] < rhs@[i])),
            r.is_mask(),
    {
        let mut out = [0i16; 8];
        let mut i: usize = 0;
        while i < 8
            invariant
                i <= 8,
                forall|j: int| 0 <= j < i ==> out[j] == lane::mask_i16(self@[j] < rhs@[j]),
            decreases 8 - i,
        {
            out[i] = if self.lanes[i] < rhs.lanes[i] { -1 } else { 0 };
            i += 1;
        }
        let r = I16x8 { lanes: out };
        assert(r@ =~= Seq::new(8, |j: int| lane::mask_i16(self@[j] < rhs@[j])));
        r
    }

    /// Lane-wise `self <= rhs`, as a mask: the complement of `cmp_gt`.
    pub fn cmp_lte(self, rhs: Self) -> (r: Self)
        ensures
            r@ == Seq::new(8, |i: int| lane::mask_i16(self@[i] <= rhs@[i])),
            r.is_mask(),
    {
        let r = self.cmp_gt(rhs).bit_not();
        proof {
            lane::lemma_bits_i16(0);
        }
        assert(r@ =~= Seq::new(8, |i: int| lane::mask_i16(self@[i] <= rhs@[i])));
        r
    }

    /// Lane-wise `self > rhs`, as a mask.
    pub fn cmp_gt(self, rhs: Self) -> (r: Self)
        ensures
            r@ == Seq::new(8, |i: int| lane::mask_i16(self@[i] > rhs@[i])),
            r.is_mask(),
    {
        let mut out = [0i16; 8];
        let mut i: usize = 0;
        while i < 8
            invariant
                i <= 8,
                forall|j: int| 0 <= j < i ==> out[j] == lane::mask_i16(self@[j] > rhs@[j]),
            decreases 8 - i,
        {
            out[i] = if self.lanes[i] > rhs.lanes[i] { -1 } else { 0 };
            i += 1;
        }
        let r = I16x8 { lanes: out };
        assert(r@ =~= Seq::new(8, |j: int| lane::mask_i16(self@[j] > rhs@[j])));
        r
    }

    /// Lane-wise `self >= rhs`, as a mask: the complement of `cmp_lt`.
    pub fn cmp_gte(self, rhs: Self) -> (r: Self)
        ensures
            r@ == Seq::new(8, |i: int| lane::mask_i16(self@[i] >= rhs@[i])),
            r.is_mask(),
    {
        let r = self.cmp_lt(rhs).bit_not();
        proof {
            lane::lemma_bits_i16(0);
        }
        assert(r@ =~= Seq::new(8, |i: int| lane::mask_i16(self@[i] >= rhs@[i])));
        r
    }

    /// Lane-wise maximum.
    pub fn max(self, rhs: Self) -> (r: Self)
        ensures
            r@ == Seq::new(8, |i: int| lane::max_i16(self@[i], rhs@[i])),
    {
        let mut out = [0i16; 8];
        let mut i: usize = 0;
        while i < 8
            invariant
                i <= 8,
                forall|j: int| 0 <= j < i ==> out[j] == lane::max_i16(self@[j], rhs@[j]),
            decreases 8 - i,
        {
            out[i] = if self.lanes[i] > rhs.lanes[i] { self.lanes[i] } else { rhs.lanes[i] };
            i += 1;
        }
        let r = I16x8 { lanes: out };
        assert(r@ =~= Seq::new(8, |j: int| lane::max_i16(self@[j], rhs@[j])));
        r
    }

    /// Lane-wise minimum.
    pub fn min(self, rhs: Self) -> (r: Self)
        ensures
            r@ == Seq::new(8, |i: int| lane::min_i16(self@[i], rhs@[i])),
    {
        let mut out = [0i16; 8];
        let mut i: usize = 0;
        while i < 8
            invariant
                i <= 8,
                forall|j: int| 0 <= j < i ==> out[j] == lane::min_i16(self@[j], rhs@[j]),
            decreases 8 - i,
        {
            out[i] = if self.lanes[i] < rhs.lanes[i] { self.lanes[i] } else { rhs.lanes[i] };
            i += 1;
        }
        let r = I16x8 { lanes: out };
        assert(r@ =~= Seq::new(8, |j: int| lane::min_i16(self@[j], rhs@[j])));
        r
    }

    /// Shifts each lane's bit pattern left by `rhs`, filling with zeros.
    pub fn shl(self, rhs: i32) -> (r: Self)
        requires
            0 <= rhs < 16,
        ensures
            r@ == Seq::new(8, |i: int| lane::shl_i16(self@[i], rhs as u32)),
    {
        let by = rhs as u32;
        let mut out = [0i16; 8];
        let mut i: usize = 0;
        while i < 8
            invariant
                i <= 8,
                by < 16,
                forall|j: int| 0 <= j < i ==> out[j] == lane::shl_i16(self@[j], by),
            decreases 8 - i,
        {
            out[i] = ((self.lanes[i] as u16) << by) as i16;
            i += 1;
        }
        let r = I16x8 { lanes: out };
        assert(r@ =~= Seq::new(8, |j: int| lane::shl_i16(self@[j], rhs as u32)));
        r
    }

    /// Shifts each lane's bit pattern right by `rhs`, filling with zeros.
    pub fn shr(self, rhs: i32) -> (r: Self)
        requires
            0 <= rhs < 16,
        ensures
            r@ == Seq::new(8, |i: int| lane::shr_i16(self@[i], rhs as u32)),
    {
        let by = rhs as u32;
        let mut out = [0i16; 8];
        let mut i: usize = 0;
        while i < 8
            invariant
                i <= 8,
                by < 16,
                forall|j: int| 0 <= j < i ==> out[j] == lane::shr_i16(self@[j], by),
            decreases 8 - i,
        {
            out[i] = ((self.lanes[i] as u16) >> by) as i16;
            i += 1;
        }
        let r = I16x8 { lanes: out };
        assert(r@ =~= Seq::new(8, |j: int| lane::shr_i16(self@[j], rhs as u32)));
        r
    }

    /// `shl` by an amount fixed when the program is built.
    pub fn shl_const<const BY: u32>(self) -> (r: Self)
        requires
            BY < 16,
        ensures
            r@ == Seq::new(8, |i: int| lane::shl_i16(self@[i], BY)),
    {
        self.shl(BY as i32)
    }

    /// `shr` by an amount fixed when the program is built.
    pub fn shr_const<const BY: u32>(self) -> (r: Self)
        requires
            BY < 16,
        ensures
            r@ == Seq::new(8, |i: int| lane::shr_i16(self@[i], BY)),
    {
        self.shr(BY as i32)
    }

    /// Sign-extends the lanes to 32 bits: lanes 0 to 3 form the first result, lanes
    /// 4 to 7 the second.
    pub fn extend_to_i32(self) -> (r: (I32x4, I32x4))
        ensures
            r.0@ == Seq::new(4, |k: int| self@[k] as i32),
            r.1@ == Seq::new(4, |k: int| self@[k + 4] as i32),
    {
        let mut lo = [0i32; 4];
        let mut hi = [0i32; 4];
        let mut k: usize = 0;
        while k < 4
            invariant
                k <= 4,
                forall|j: int| 0 <= j < k ==> lo[j] == self@[j] as i32,
                forall|j: int| 0 <= j < k ==> hi[j] == self@[j + 4] as i32,
            decreases 4 - k,
        {
            lo[k] = self.lanes[k] as i32;
            hi[k] = self.lanes[k + 4] as i32;
            k += 1;
        }
        let r = (I32x4::from_underlying_value(lo), I32x4::from_underlying_value(hi));
        assert(r.0@ =~= Seq::new(4, |k: int| self@[k] as i32));
        assert(r.1@ =~= Seq::new(4, |k: int| self@[k + 4] as i32));
        r
    }

    /// Zero-extends the lanes' bit patterns to 32 bits: lanes 0 to 3 form the first
    /// result, lanes 4 to 7 the second.
    pub fn unsigned_extend_to_i32(self) -> (r: (I32x4, I32x4))
        ensures
            r.0@ == Seq::new(4, |k: int| self@[k] as u16 as i32),
            r.1@ == Seq::new(4, |k: int| self@[k + 4] as u16 as i32),
    {
        let mut lo = [0i32; 4];
        let mut hi = [0i32; 4];
        let mut k: usize = 0;
        while k < 4
            invariant
                k <= 4,
                forall|j: int| 0 <= j < k ==> lo[j] == self@[j] as u16 as i32,
                forall|j: int| 0 <= j < k ==> hi[j] == self@[j + 4] as u16 as i32,
            decreases 4 - k,
        {
            lo[k] = self.lanes[k] as u16 as i32;
            hi[k] = self.lanes[k + 4] as u16 as i32;
            k += 1;
        }
        let r = (I32x4::from_underlying_value(lo), I32x4::from_underlying_value(hi));
        assert(r.0@ =~= Seq::new(4, |k: int| self@[k] as u16 as i32));
        assert(r.1@ =~= Seq::new(4, |k: int| self@[k + 4] as u16 as i32));
        r
    }

    /// Adds lane `k` to lane `k + 4`, as 32-bit lanes.
    pub fn partial_horizontal_add(self) -> (r: I32x4)
        ensures
            r@ == Seq::new(4, |k: int| (self@[k] + self@[k + 4]) as i32),
    {
        let (lo, hi) = self.extend_to_i32();
        let r = lo.add(hi);
        assert(r@ =~= Seq::new(4, |k: int| (self@[k] + self@[k + 4]) as i32));
        r
    }

    /// Adds the bit pattern of lane `k`, read unsigned, to that of lane `k + 4`, as
    /// 32-bit lanes.
    pub fn partial_horizontal_unsigned_add(self) -> (r: I32x4)
        ensures
            r@ == Seq::new(4, |k: int| (self@[k] as u16 + self@[k + 4] as u16) as i32),
    {
        let (lo, hi) = self.unsigned_extend_to_i32();
        let r = lo.add(hi);
        assert(r@ =~= Seq::new(4, |k: int| (self@[k] as u16 + self@[k + 4] as u16) as i32));
        r
    }

    /// The sum of all lanes, by repeated pairwise addition.
    pub fn horizontal_add(self) -> (r: i64)
        ensures
            r == lane::sum_of(|i: int| self@[i] as int, 8),
    {
        let r = self
            .partial_horizontal_add()
            .partial_horizontal_add()
            .partial_horizontal_add();
        proof {
            reveal_with_fuel(lane::sum_of, 9);
        }
        r
    }

    /// The sum of all lanes' bit patterns read unsigned, by repeated pairwise addition.
    pub fn horizontal_unsigned_add(self) -> (r: i64)
        ensures
            r == lane::sum_of(|i: int| self@[i] as u16 as int, 8),
    {
        let r = self
            .partial_horizontal_unsigned_add()
            .partial_horizontal_unsigned_add()
            .horizontal_unsigned_add();
        proof {
            reveal_with_fuel(lane::sum_of, 9);
        }
        r
    }
}

} // verus!
