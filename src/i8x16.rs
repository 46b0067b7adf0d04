//! Sixteen lanes of 8-bit integers in one 128-bit register.
use vstd::prelude::*;

use crate::lane;
use crate::i16x8::I16x8;

verus! {

/// Sixteen lanes of 8-bit two's-complement integers held in one 128-bit register, lane
/// 0 first.
#[derive(Clone, Copy)]
pub struct I8x16 {
    lanes: [i8; 16],
}

impl View for I8x16 {
    type V = Seq<i8>;

    closed spec fn view(&self) -> Seq<i8> {
        self.lanes@
    }
}

impl I8x16 {
    /// Every lane is a comparison result: no bits set, or all of them.
    pub open spec fn is_mask(self) -> bool {
        lane::all_masks_i8(self@)
    }

    /// A value always has exactly 16 lanes.
    pub broadcast proof fn lemma_lane_count(self)
        ensures
            #[trigger] self@.len() == 16,
    {
    }

    /// The value with every bit clear.
    pub fn zeroes() -> (r: Self)
        ensures
            r@ == Seq::new(16, |i: int| 0i8),
    {
        let r = I8x16 { lanes: [0i8; 16] };
        assert(r@ =~= Seq::new(16, |i: int| 0i8));
        r
    }

    /// `x` in every lane.
    pub fn set1(x: i8) -> (r: Self)
        ensures
            r@ == Seq::new(16, |i: int| x),
    {
        let r = I8x16 { lanes: [x; 16] };
        assert(r@ =~= Seq::new(16, |i: int| x));
        r
    }

    /// The lanes of `array`, in order.
    pub fn load_from_array(array: [i8; 16]) -> (r: Self)
        ensures
            r@ == array@,
    {
        I8x16 { lanes: array }
    }

    /// The first 16 elements of `src`, in order; `src` needs no particular alignment.
    pub fn load_from_slice(src: &[i8]) -> (r: Self)
        requires
            src@.len() >= 16,
        ensures
            r@ == src@.subrange(0, 16),
    {
        let mut out = [0i8; 16];
        let mut i: usize = 0;
        while i < 16
            invariant
                i <= 16,
                src@.len() >= 16,
                forall|j: int| 0 <= j < i ==> out[j] == src@[j],
            decreases 16 - i,
        {
            out[i] = src[i];
            i += 1;
        }
        let r = I8x16 { lanes: out };
        assert(r@ =~= src@.subrange(0, 16));
        r
    }

    /// Writes the lanes over the first 16 elements of `dst` and leaves the rest as it was.
    pub fn copy_to_slice(self, dst: &mut [i8])
        requires
            old(dst)@.len() >= 16,
        ensures
            final(dst)@ == self@ + old(dst)@.subrange(16, old(dst)@.len() as int),
    {
        let mut i: usize = 0;
        while i < 16
            invariant
                i <= 16,
                old(dst)@.len() >= 16,
                dst@.len() == old(dst)@.len(),
                forall|j: int| 0 <= j < i ==> dst@[j] == self@[j],
                forall|j: int| i <= j < dst@.len() ==> dst@[j] == old(dst)@[j],
            decreases 16 - i,
        {
            dst[i] = self.lanes[i];
            i += 1;
        }
        assert(dst@ =~= self@ + old(dst)@.subrange(16, old(dst)@.len() as int));
    }

    /// The register's contents as an array of lanes.
    pub fn underlying_value(self) -> (r: [i8; 16])
        ensures
            r@ == self@,
    {
        self.lanes
    }

    /// The register's contents, to be changed in place.
    pub fn underlying_value_mut(&mut self) -> (r: &mut [i8; 16])
        ensures
            (*r)@ == old(self)@,
            final(self)@ == (*final(r))@,
    {
        &mut self.lanes
    }

    /// The value whose register holds `value`.
    pub fn from_underlying_value(value: [i8; 16]) -> (r: Self)
        ensures
            r@ == value@,
    {
        I8x16 { lanes: value }
    }

    /// Lane `i`.
    pub fn lane(self, i: usize) -> (r: i8)
        requires
            i < 16,
        ensures
            r == self@[i as int],
    {
        self.lanes[i]
    }

    /// Lane-wise wrapping addition.
    pub fn add(self, rhs: Self) -> (r: Self)
        ensures
            r@ == Seq::new(16, |i: int| self@[i].wrapping_add(rhs@[i])),
    {
        let mut out = [0i8; 16];
        let mut i: usize = 0;
        while i < 16
            invariant
                i <= 16,
                forall|j: int| 0 <= j < i ==> out[j] == self@[j].wrapping_add(rhs@[j]),
            decreases 16 - i,
        {
            out[i] = self.lanes[i].wrapping_add(rhs.lanes[i]);
            i += 1;
        }
        let r = I8x16 { lanes: out };
        assert(r@ =~= Seq::new(16, |j: int| self@[j].wrapping_add(rhs@[j])));
        r
    }

    /// Lane-wise wrapping subtraction.
    pub fn sub(self, rhs: Self) -> (r: Self)
        ensures
            r@ == Seq::new(16, |i: int| self@[i].wrapping_sub(rhs@[i])),
    {
        let mut out = [0i8; 16];
        let mut i: usize = 0;
        while i < 16
            invariant
                i <= 16,
                forall|j: int| 0 <= j < i ==> out[j] == self@[j].wrapping_sub(rhs@[j]),
            decreases 16 - i,
        {
            out[i] = self.lanes[i].wrapping_sub(rhs.lanes[i]);
            i += 1;
        }
        let r = I8x16 { lanes: out };
        assert(r@ =~= Seq::new(16, |j: int| self@[j].wrapping_sub(rhs@[j])));
        r
    }

    /// Lane-wise wrapping multiplication, keeping the low 8 bits of each product.
    pub fn mul(self, rhs: Self) -> (r: Self)
        ensures
            r@ == Seq::new(16, |i: int| self@[i].wrapping_mul(rhs@[i])),
    {
        let mut out = [0i8; 16];
        let mut i: usize = 0;
        while i < 16
            invariant
                i <= 16,
                forall|j: int| 0 <= j < i ==> out[j] == self@[j].wrapping_mul(rhs@[j]),
            decreases 16 - i,
        {
            out[i] = self.lanes[i].wrapping_mul(rhs.lanes[i]);
            i += 1;
        }
        let r = I8x16 { lanes: out };
        assert(r@ =~= Seq::new(16, |j: int| self@[j].wrapping_mul(rhs@[j])));
        r
    }

    /// Bitwise and.
    pub fn bit_and(self, rhs: Self) -> (r: Self)
        ensures
            r@ == Seq::new(16, |i: int| self@[i] & rhs@[i]),
    {
        let mut out = [0i8; 16];
        let mut i: usize = 0;
        while i < 16
            invariant
                i <= 16,
                forall|j: int| 0 <= j < i ==> out[j] == self@[j] & rhs@[j],
            decreases 16 - i,
        {
            out[i] = self.lanes[i] & rhs.lanes[i];
            i += 1;
        }
        let r = I8x16 { lanes: out };
        assert(r@ =~= Seq::new(16, |j: int| self@[j] & rhs@[j]));
        r
    }

    /// Bitwise or.
    pub fn bit_or(self, rhs: Self) -> (r: Self)
        ensures
            r@ == Seq::new(16, |i: int| self@[i] | rhs@[i]),
    {
        let mut out = [0i8; 16];
        let mut i: usize = 0;
        while i < 16
            invariant
                i <= 16,
                forall|j: int| 0 <= j < i ==> out[j] == self@[j] | rhs@[j],
            decreases 16 - i,
        {
            out[i] = self.lanes[i] | rhs.lanes[i];
            i += 1;
        }
        let r = I8x16 { lanes: out };
        assert(r@ =~= Seq::new(16, |j: int| self@[j] | rhs@[j]));
        r
    }

    /// Bitwise exclusive or.
    pub fn bit_xor(self, rhs: Self) -> (r: Self)
        ensures
            r@ == Seq::new(16, |i: int| self@[i] ^ rhs@[i]),
    {
        let mut out = [0i8; 16];
        let mut i: usize = 0;
        while i < 16
            invariant
                i <= 16,
                forall|j: int| 0 <= j < i ==> out[j] == self@[j] ^ rhs@[j],
            decreases 16 - i,
        {
            out[i] = self.lanes[i] ^ rhs.lanes[i];
            i += 1;
        }
        let r = I8x16 { lanes: out };
        assert(r@ =~= Seq::new(16, |j: int| self@[j] ^ rhs@[j]));
        r
    }

    /// Bitwise complement, as exclusive or with all bits set.
    pub fn bit_not(self) -> (r: Self)
        ensures
            r@ == Seq::new(16, |i: int| lane::not_i8(self@[i])),
    {
        let r = Self::set1(-1).bit_xor(self);
        assert forall|i: int| 0 <= i < 16 implies #[trigger] r@[i] == lane::not_i8(self@[i]) by {
            lane::lemma_bits_i8(self@[i]);
        }
        assert(r@ =~= Seq::new(16, |i: int| lane::not_i8(self@[i])));
        r
    }

    /// Lane-wise absolute value, as `(x ^ m) - m` with `m` the mask of `x < 0`; the
    /// minimum value stays as it is.
    pub fn abs(self) -> (r: Self)
        ensures
            r@ == Seq::new(16, |i: int| lane::abs_i8(self@[i])),
    {
        let mask = self.cmp_lt(Self::zeroes());
        let r = self.bit_xor(mask).sub(mask);
        assert forall|i: int| 0 <= i < 16 implies #[trigger] r@[i] == lane::abs_i8(self@[i]) by {
            lane::lemma_bits_i8(self@[i]);
        }
        assert(r@ =~= Seq::new(16, |i: int| lane::abs_i8(self@[i])));
        r
    }

    /// The complement of `self`, and `rhs`: `!self & rhs`.
    pub fn and_not(self, rhs: Self) -> (r: Self)
        ensures
            r@ == Seq::new(16, |i: int| lane::not_i8(self@[i]) & rhs@[i]),
    {
        let mut out = [0i8; 16];
        let mut i: usize = 0;
        while i < 16
            invariant
                i <= 16,
                forall|j: int| 0 <= j < i ==> out[j] == lane::not_i8(self@[j]) & rhs@[j],
            decreases 16 - i,
        {
            out[i] = !self.lanes[i] & rhs.lanes[i];
            i += 1;
        }
        let r = I8x16 { lanes: out };
        assert(r@ =~= Seq::new(16, |j: int| lane::not_i8(self@[j]) & rhs@[j]));
        r
    }

    /// Per lane, `b` where the mask lane `self` has its top bit set and `a` elsewhere; on
    /// a comparison mask, `b` where the lane is all ones.
    pub fn blendv(self, a: Self, b: Self) -> (r: Self)
        ensures
            r@ == Seq::new(16, |i: int| lane::select_i8(self@[i], a@[i], b@[i])),
            self.is_mask() ==> r@ == Seq::new(
                16,
                |i: int| if self@[i] == 0 { a@[i] } else { b@[i] },
            ),
    {
        let mut out = [0i8; 16];
        let mut i: usize = 0;
        while i < 16
            invariant
                i <= 16,
                forall|j: int| 0 <= j < i ==> out[j] == lane::select_i8(self@[j], a@[j], b@[j]),
            decreases 16 - i,
        {
            out[i] = if self.lanes[i] < 0 { b.lanes[i] } else { a.lanes[i] };
            i += 1;
        }
        let r = I8x16 { lanes: out };
        assert(r@ =~= Seq::new(16, |j: int| lane::select_i8(self@[j], a@[j], b@[j])));
        r
    }

    /// Lane-wise `self == rhs`, as a mask.
    pub fn cmp_eq(self, rhs: Self) -> (r: Self)
        ensures
            r@ == Seq::new(16, |i: int| lane::mask_i8(self@[i] == rhs@[i])),
            r.is_mask(),
    {
        let mut out = [0i8; 16];
        let mut i: usize = 0;
        while i < 16
            invariant
                i <= 16,
                forall|j: int| 0 <= j < i ==> out[j] == lane::mask_i8(self@[j] == rhs@[j]),
            decreases 16 - i,
        {
            out[i] = if self.lanes[i] == rhs.lanes[i] { -1 } else { 0 };
            i += 1;
        }
        let r = I8x16 { lanes: out };
        assert(r@ =~= Seq::new(16, |j: int| lane::mask_i8(self@[j] == rhs@[j])));
        r
    }

    /// Lane-wise `self != rhs`, as a mask: the complement of `cmp_eq`.
    pub fn cmp_neq(self, rhs: Self) -> (r: Self)
        ensures
            r@ == Seq::new(16, |i: int| lane::mask_i8(self@[i] != rhs@[i])),
            r.is_mask(),
    {
        let r = self.cmp_eq(rhs).bit_not();
        proof {
            lane::lemma_bits_i8(0);
        }
        assert(r@ =~= Seq::new(16, |i: int| lane::mask_i8(self@[i] != rhs@[i])));
        r
    }

    /// Lane-wise `self < rhs`, as a mask.
    pub fn cmp_lt(self, rhs: Self) -> (r: Self)
        ensures
            r@ == Seq::new(16, |i: int| lane::mask_i8(self@[i] < rhs@[i])),
            r.is_mask(),
    {
        let mut out = [0i8; 16];
        let mut i: usize = 0;
        while i < 16
            invariant
                i <= 16,
                forall|j: int| 0 <= j < i ==> out[j] == lane::mask_i8(self@[j] < rhs@[j]),
            decreases 16 - i,
        {
            out[i] = if self.lanes[i] < rhs.lanes[i] { -1 } else { 0 };
            i += 1;
        }
        let r = I8x16 { lanes: out };
        assert(r@ =~= Seq::new(16, |j: int| lane::mask_i8(self@[j] < rhs@[j])));
        r
    }

    /// Lane-wise `self <= rhs`, as a mask: the complement of `cmp_gt`.
    pub fn cmp_lte(self, rhs: Self) -> (r: Self)
        ensures
            r@ == Seq::new(16, |i: int| lane::mask_i8(self@[i] <= rhs@[i])),
            r.is_mask(),
    {
        let r = self.cmp_gt(rhs).bit_not();
        proof {
            lane::lemma_bits_i8(0);
        }
        assert(r@ =~= Seq::new(16, |i: int| lane::mask_i8(self@[i] <= rhs@[i])));
        r
    }

    /// Lane-wise `self > rhs`, as a mask.
    pub fn cmp_gt(self, rhs: Self) -> (r: Self)
        ensures
            r@ == Seq::new(16, |i: int| lane::mask_i8(self@[i] > rhs@[i])),
            r.is_mask(),
    {
        let mut out = [0i8; 16];
        let mut i: usize = 0;
        while i < 16
            invariant
                i <= 16,
                forall|j: int| 0 <= j < i ==> out[j] == lane::mask_i8(self@[j] > rhs@[j]),
            decreases 16 - i,
        {
            out[i] = if self.lanes[i] > rhs.lanes[i] { -1 } else { 0 };
            i += 1;
        }
        let r = I8x16 { lanes: out };
        assert(r@ =~= Seq::new(16, |j: int| lane::mask_i8(self@[j] > rhs@[j])));
        r
    }

    /// Lane-wise `self >= rhs`, as a mask: the complement of `cmp_lt`.
    pub fn cmp_gte(self, rhs: Self) -> (r: Self)
        ensures
            r@ == Seq::new(16, |i: int| lane::mask_i8(self@[i] >= rhs@[i])),
            r.is_mask(),
    {
        let r = self.cmp_lt(rhs).bit_not();
        proof {
            lane::lemma_bits_i8(0);
        }
        assert(r@ =~= Seq::new(16, |i: int| lane::mask_i8(self@[i] >= rhs@[i])));
        r
    }

    /// Lane-wise maximum.
    pub fn max(self, rhs: Self) -> (r: Self)
        ensures
            r@ == Seq::new(16, |i: int| lane::max_i8(self@[i], rhs@[i])),
    {
        let mut out = [0i8; 16];
        let mut i: usize = 0;
        while i < 16
            invariant
                i <= 16,
                forall|j: int| 0 <= j < i ==> out[j] == lane::max_i8(self@[j], rhs@[j]),
            decreases 16 - i,
        {
            out[i] = if self.lanes[i] > rhs.lanes[i] { self.lanes[i] } else { rhs.lanes[i] };
            i += 1;
        }
        let r = I8x16 { lanes: out };
        assert(r@ =~= Seq::new(16, |j: int| lane::max_i8(self@[j], rhs@[j])));
        r
    }

    /// Lane-wise minimum.
    pub fn min(self, rhs: Self) -> (r: Self)
        ensures
            r@ == Seq::new(16, |i: int| lane::min_i8(self@[i], rhs@[i])),
    {
        let mut out = [0i8; 16];
        let mut i: usize = 0;
        while i < 16
            invariant
                i <= 16,
                forall|j: int| 0 <= j < i ==> out[j] == lane::min_i8(self@[j], rhs@[j]),
            decreases 16 - i,
        {
            out[i] = if self.lanes[i] < rhs.lanes[i] { self.lanes[i] } else { rhs.lanes[i] };
            i += 1;
        }
        let r = I8x16 { lanes: out };
        assert(r@ =~= Seq::new(16, |j: int| lane::min_i8(self@[j], rhs@[j])));
        r
    }

    /// The same register read as eight 16-bit lanes.
    fn as_i16_lanes(self) -> (r: I16x8)
        ensures
            r@ == Seq::new(8, |k: int| lane::join_i8(self@[2 * k], self@[2 * k + 1])),
    {
        let mut out = [0i16; 8];
        let mut k: usize = 0;
        while k < 8
            invariant
                k <= 8,
                forall|j: int|
                    0 <= j < k ==> out[j] == lane::join_i8(self@[2 * j], self@[2 * j + 1]),
            decreases 8 - k,
        {
            let lo = self.lanes[2 * k] as u8 as u16;
            let hi = self.lanes[2 * k + 1] as u8 as u16;
            out[k] = (lo | (hi << 8u32)) as i16;
            k += 1;
        }
        let r = I16x8::from_underlying_value(out);
        assert(r@ =~= Seq::new(8, |k: int| lane::join_i8(self@[2 * k], self@[2 * k + 1])));
        r
    }

    /// The register of eight 16-bit lanes read as sixteen 8-bit lanes.
    fn from_i16_lanes(v: I16x8) -> (r: Self)
        ensures
            r@ == Seq::new(
                16,
                |i: int|
                    if i % 2 == 0 {
                        lane::low_byte(v@[i / 2])
                    } else {
                        lane::high_byte(v@[i / 2])
                    },
            ),
    {
        let w = v.underlying_value();
        let mut out = [0i8; 16];
        let mut i: usize = 0;
        while i < 16
            invariant
                i <= 16,
                w@ == v@,
                forall|j: int|
                    0 <= j < i ==> out[j] == (if j % 2 == 0 {
                        lane::low_byte(v@[j / 2])
                    } else {
                        lane::high_byte(v@[j / 2])
                    }),
            decreases 16 - i,
        {
            let x = w[i / 2];
            out[i] = if i % 2 == 0 {
                x as i8
            } else {
                ((x as u16) >> 8u32) as i8
            };
            i += 1;
        }
        let r = I8x16 { lanes: out };
        assert(r@ =~= Seq::new(
            16,
            |i: int|
                if i % 2 == 0 {
                    lane::low_byte(v@[i / 2])
                } else {
                    lane::high_byte(v@[i / 2])
                },
        ));
        r
    }

    /// Shifts each lane's bit pattern left by `rhs`, filling with zeros.
    ///
    /// The register is shifted as 16-bit lanes; the bits that cross from each low byte
    /// into its high neighbour are then cleared.
    pub fn shl(self, rhs: i32) -> (r: Self)
        requires
            0 <= rhs < 8,
        ensures
            r@ == Seq::new(16, |i: int| lane::shl_i8(self@[i], rhs as u32)),
    {
        let by = rhs as u32;
        let wide = self.as_i16_lanes();
        let shifted = wide.shl(rhs);
        let crossed: u16 = (0x00FFu16 >> (8 - by)) << 8u32;
        let kept = I16x8::set1(crossed as i16).and_not(shifted);
        let r = Self::from_i16_lanes(kept);
        assert forall|i: int| 0 <= i < 16 implies #[trigger] r@[i] == lane::shl_i8(self@[i], by)
        by {
            let k = i / 2;
            lemma_shl_pair(self@[2 * k], self@[2 * k + 1], by, crossed);
        }
        assert(r@ =~= Seq::new(16, |i: int| lane::shl_i8(self@[i], rhs as u32)));
        r
    }

    /// Shifts each lane's bit pattern right by `rhs`, filling with zeros.
    ///
    /// The register is shifted as 16-bit lanes; the bits that cross from each high byte
    /// into its low neighbour are then cleared.
    pub fn shr(self, rhs: i32) -> (r: Self)
        requires
            0 <= rhs < 8,
        ensures
            r@ == Seq::new(16, |i: int| lane::shr_i8(self@[i], rhs as u32)),
    {
        let by = rhs as u32;
        let wide = self.as_i16_lanes();
        let shifted = wide.shr(rhs);
        let crossed: u16 = (0xFF00u16 << (8 - by)) >> 8u32;
        let kept = I16x8::set1(crossed as i16).and_not(shifted);
        let r = Self::from_i16_lanes(kept);
        assert forall|i: int| 0 <= i < 16 implies #[trigger] r@[i] == lane::shr_i8(self@[i], by)
        by {
            let k = i / 2;
            lemma_shr_pair(self@[2 * k], self@[2 * k + 1], by, crossed);
        }
        assert(r@ =~= Seq::new(16, |i: int| lane::shr_i8(self@[i], rhs as u32)));
        r
    }

    /// Sign-extends the lanes to 16 bits: lanes 0 to 7 form the first result, lanes 8 to
    /// 15 the second.
    pub fn extend_to_i16(self) -> (r: (I16x8, I16x8))
        ensures
            r.0@ == Seq::new(8, |k: int| self@[k] as i16),
            r.1@ == Seq::new(8, |k: int| self@[k + 8] as i16),
    {
        let mut lo = [0i16; 8];
        let mut hi = [0i16; 8];
        let mut k: usize = 0;
        while k < 8
            invariant
                k <= 8,
                forall|j: int| 0 <= j < k ==> lo[j] == self@[j] as i16,
                forall|j: int| 0 <= j < k ==> hi[j] == self@[j + 8] as i16,
            decreases 8 - k,
        {
            lo[k] = self.lanes[k] as i16;
            hi[k] = self.lanes[k + 8] as i16;
            k += 1;
        }
        let r = (I16x8::from_underlying_value(lo), I16x8::from_underlying_value(hi));
        assert(r.0@ =~= Seq::new(8, |k: int| self@[k] as i16));
        assert(r.1@ =~= Seq::new(8, |k: int| self@[k + 8] as i16));
        r
    }

    /// Zero-extends the lanes' bit patterns to 16 bits: lanes 0 to 7 form the first
    /// result, lanes 8 to 15 the second.
    pub fn unsigned_extend_to_i16(self) -> (r: (I16x8, I16x8))
        ensures
            r.0@ == Seq::new(8, |k: int| self@[k] as u8 as i16),
            r.1@ == Seq::new(8, |k: int| self@[k + 8] as u8 as i16),
    {
        let mut lo = [0i16; 8];
        let mut hi = [0i16; 8];
        let mut k: usize = 0;
        while k < 8
            invariant
                k <= 8,
                forall|j: int| 0 <= j < k ==> lo[j] == self@[j] as u8 as i16,
                forall|j: int| 0 <= j < k ==> hi[j] == self@[j + 8] as u8 as i16,
            decreases 8 - k,
        {
            lo[k] = self.lanes[k] as u8 as i16;
            hi[k] = self.lanes[k + 8] as u8 as i16;
            k += 1;
        }
        let r = (I16x8::from_underlying_value(lo), I16x8::from_underlying_value(hi));
        assert(r.0@ =~= Seq::new(8, |k: int| self@[k] as u8 as i16));
        assert(r.1@ =~= Seq::new(8, |k: int| self@[k + 8] as u8 as i16));
        r
    }

    /// One bit per lane, bit `i` set exactly when lane `i` is negative.
    pub fn get_mask(self) -> (r: u32)
        ensures
            r < 0x10000,
            forall|i: u32| i < 16 ==> (((r >> i) & 1u32) == 1u32 <==> self@[i as int] < 0),
    {
        let mut r: u32 = 0;
        let mut i: u32 = 0;
        proof {
            lemma_mask_step(0, 0, false);
        }
        while i < 16
            invariant
                i <= 16,
                r < (1u32 << i),
                forall|j: u32| j < i ==> (((r >> j) & 1u32) == 1u32 <==> self@[j as int] < 0),
            decreases 16 - i,
        {
            let old_r = r;
            if self.lanes[i as usize] < 0 {
                r = r | (1u32 << i);
            }
            proof {
                lemma_mask_step(old_r, i, self@[i as int] < 0);
                assert forall|j: u32| j < i + 1 implies (((r >> j) & 1u32) == 1u32 <==> self@[
                    j as int
                ] < 0) by {
                    if j < i {
                        lemma_mask_keep(old_r, i, j, self@[i as int] < 0);
                    }
                }
            }
            i += 1;
        }
        proof {
            lemma_mask_step(0, 0, false);
        }
        r
    }

    /// Adds lane `k` to lane `k + 8`, as 16-bit lanes.
    pub fn partial_horizontal_add(self) -> (r: I16x8)
        ensures
            r@ == Seq::new(8, |k: int| (self@[k] + self@[k + 8]) as i16),
    {
        let (lo, hi) = self.extend_to_i16();
        let r = lo.add(hi);
        assert(r@ =~= Seq::new(8, |k: int| (self@[k] + self@[k + 8]) as i16));
        r
    }

    /// Adds the bit pattern of lane `k`, read unsigned, to that of lane `k + 8`, as
    /// 16-bit lanes.
    pub fn partial_horizontal_unsigned_add(self) -> (r: I16x8)
        ensures
            r@ == Seq::new(8, |k: int| (self@[k] as u8 + self@[k + 8] as u8) as i16),
    {
        let (lo, hi) = self.unsigned_extend_to_i16();
        let r = lo.add(hi);
        assert(r@ =~= Seq::new(8, |k: int| (self@[k] as u8 + self@[k + 8] as u8) as i16));
        r
    }

    /// The sum of all lanes, by repeated pairwise addition.
    pub fn horizontal_add(self) -> (r: i64)
        ensures
            r == lane::sum_of(|i: int| self@[i] as int, 16),
    {
        let a = self.partial_horizontal_add();
        let b = a.partial_horizontal_add();
        let c = b.partial_horizontal_add();
        let r = c.partial_horizontal_add();
        proof {
            reveal_with_fuel(lane::sum_of, 17);
        }
        r
    }

    /// The sum of all lanes' bit patterns read unsigned, by repeated pairwise addition.
    pub fn horizontal_unsigned_add(self) -> (r: i64)
        ensures
            r == lane::sum_of(|i: int| self@[i] as u8 as int, 16),
    {
        let a = self.partial_horizontal_unsigned_add();
        let b = a.partial_horizontal_unsigned_add();
        let c = b.partial_horizontal_unsigned_add();
        let r = c.partial_horizontal_add();
        proof {
            reveal_with_fuel(lane::sum_of, 17);
        }
        r
    }
}

/// Shifting a pair of 8-bit lanes left as one 16-bit lane and clearing the bits that
/// crossed into the high byte shifts each byte on its own.
proof fn lemma_shl_pair(lo: i8, hi: i8, n: u32, crossed: u16)
    by (bit_vector)
    requires
        n < 8,
        crossed == (0x00FFu16 >> ((8 - n) as u32)) << 8u32,
    ensures
        lane::low_byte(lane::not_i16(crossed as i16) & lane::shl_i16(lane::join_i8(lo, hi), n))
            == lane::shl_i8(lo, n),
        lane::high_byte(lane::not_i16(crossed as i16) & lane::shl_i16(lane::join_i8(lo, hi), n))
            == lane::shl_i8(hi, n),
{
}

/// Shifting a pair of 8-bit lanes right as one 16-bit lane and clearing the bits that
/// crossed into the low byte shifts each byte on its own.
proof fn lemma_shr_pair(lo: i8, hi: i8, n: u32, crossed: u16)
    by (bit_vector)
    requires
        n < 8,
        crossed == (0xFF00u16 << ((8 - n) as u32)) >> 8u32,
    ensures
        lane::low_byte(lane::not_i16(crossed as i16) & lane::shr_i16(lane::join_i8(lo, hi), n))
            == lane::shr_i8(lo, n),
        lane::high_byte(lane::not_i16(crossed as i16) & lane::shr_i16(lane::join_i8(lo, hi), n))
            == lane::shr_i8(hi, n),
{
}

/// Setting (or not) bit `i` of a value below `2^i` gives a value below `2^(i+1)` whose
/// bit `i` tells which was done; with the two powers of two that bound the loop.
proof fn lemma_mask_step(r: u32, i: u32, set: bool)
    by (bit_vector)
    requires
        i < 16,
    ensures
        r < (1u32 << i) ==> (if set { r | (1u32 << i) } else { r }) < (1u32 << (i + 1) as u32),
        r < (1u32 << i) ==> ((((if set { r | (1u32 << i) } else { r }) >> i) & 1u32) == 1u32
            <==> set),
        1u32 << 0u32 == 1u32,
        1u32 << 16u32 == 0x10000u32,
{
}

/// Setting (or not) bit `i` of a value below `2^i` leaves its lower bits as they were.
proof fn lemma_mask_keep(r: u32, i: u32, j: u32, set: bool)
    by (bit_vector)
    requires
        i < 16,
        j < i,
        r < (1u32 << i),
    ensures
        ((if set { r | (1u32 << i) } else { r }) >> j) & 1u32 == (r >> j) & 1u32,
{
}

} // verus!
