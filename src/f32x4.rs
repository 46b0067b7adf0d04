//! Four lanes of 32-bit floating-point numbers in one 128-bit register, held as bit
//! patterns.
//!
//! The bit-level operations live here; they never round and never look at a lane's
//! numeric value.
use vstd::prelude::*;

use crate::i32x4::I32x4;
use crate::lane;

verus! {

/// Four lanes of IEEE-754 binary32 numbers held in one 128-bit register, lane 0 first,
/// each as its bit pattern.
#[derive(Clone, Copy)]
pub struct F32x4 {
    bits: [u32; 4],
}

impl View for F32x4 {
    type V = Seq<u32>;

    closed spec fn view(&self) -> Seq<u32> {
        self.bits@
    }
}

impl F32x4 {
    /// A value always has exactly 4 lanes.
    pub broadcast proof fn lemma_lane_count(self)
        ensures
            #[trigger] self@.len() == 4,
    {
    }

    /// Positive zero in every lane: the value with every bit clear.
    pub fn zeroes() -> (r: Self)
        ensures
            r@ == Seq::new(4, |i: int| 0u32),
    {
        let r = F32x4 { bits: [0u32; 4] };
        assert(r@ =~= Seq::new(4, |i: int| 0u32));
        r
    }

    /// The number whose bit pattern is `bits`, in every lane.
    pub fn set1_bits(bits: u32) -> (r: Self)
        ensures
            r@ == Seq::new(4, |i: int| bits),
    {
        let r = F32x4 { bits: [bits; 4] };
        assert(r@ =~= Seq::new(4, |i: int| bits));
        r
    }

    /// The register's contents as the lanes' bit patterns.
    pub fn underlying_value(self) -> (r: [u32; 4])
        ensures
            r@ == self@,
    {
        self.bits
    }

    /// The register's contents, to be changed in place.
    pub fn underlying_value_mut(&mut self) -> (r: &mut [u32; 4])
        ensures
            (*r)@ == old(self)@,
            final(self)@ == (*final(r))@,
    {
        &mut self.bits
    }

    /// The value whose lanes have the bit patterns `value`.
    pub fn from_underlying_value(value: [u32; 4]) -> (r: Self)
        ensures
            r@ == value@,
    {
        F32x4 { bits: value }
    }

    /// The bit pattern of lane `i`.
    pub fn lane_bits(self, i: usize) -> (r: u32)
        requires
            i < 4,
        ensures
            r == self@[i as int],
    {
        self.bits[i]
    }

    /// Bitwise and.
    pub fn bit_and(self, rhs: Self) -> (r: Self)
        ensures
            r@ == Seq::new(4, |i: int| self@[i] & rhs@[i]),
    {
        let mut out = [0u32; 4];
        let mut i: usize = 0;
        while i < 4
            invariant
                i <= 4,
                forall|j: int| 0 <= j < i ==> out[j] == self@[j] & rhs@[j],
            decreases 4 - i,
        {
            out[i] = self.bits[i] & rhs.bits[i];
            i += 1;
        }
        let r = F32x4 { bits: out };
        assert(r@ =~= Seq::new(4, |j: int| self@[j] & rhs@[j]));
        r
    }

    /// Bitwise or.
    pub fn bit_or(self, rhs: Self) -> (r: Self)
        ensures
            r@ == Seq::new(4, |i: int| self@[i] | rhs@[i]),
    {
        let mut out = [0u32; 4];
        let mut i: usize = 0;
        while i < 4
            invariant
                i <= 4,
                forall|j: int| 0 <= j < i ==> out[j] == self@[j] | rhs@[j],
            decreases 4 - i,
        {
            out[i] = self.bits[i] | rhs.bits[i];
            i += 1;
        }
        let r = F32x4 { bits: out };
        assert(r@ =~= Seq::new(4, |j: int| self@[j] | rhs@[j]));
        r
    }

    /// Bitwise exclusive or.
    pub fn bit_xor(self, rhs: Self) -> (r: Self)
        ensures
            r@ == Seq::new(4, |i: int| self@[i] ^ rhs@[i]),
    {
        let mut out = [0u32; 4];
        let mut i: usize = 0;
        while i < 4
            invariant
                i <= 4,
                forall|j: int| 0 <= j < i ==> out[j] == self@[j] ^ rhs@[j],
            decreases 4 - i,
        {
            out[i] = self.bits[i] ^ rhs.bits[i];
            i += 1;
        }
        let r = F32x4 { bits: out };
        assert(r@ =~= Seq::new(4, |j: int| self@[j] ^ rhs@[j]));
        r
    }

    /// Bitwise complement, as exclusive or with the all-ones integer vector.
    pub fn bit_not(self) -> (r: Self)
        ensures
            r@ == Seq::new(4, |i: int| lane::not_u32(self@[i])),
    {
        let r = I32x4::set1(-1).bitcast_f32().bit_xor(self);
        assert forall|i: int| 0 <= i < 4 implies #[trigger] r@[i] == lane::not_u32(self@[i]) by {
            lane::lemma_bits_u32(self@[i], 0);
        }
        assert(r@ =~= Seq::new(4, |i: int| lane::not_u32(self@[i])));
        r
    }

    /// The complement of `self`, and `rhs`: `!self & rhs`.
    pub fn and_not(self, rhs: Self) -> (r: Self)
        ensures
            r@ == Seq::new(4, |i: int| lane::not_u32(self@[i]) & rhs@[i]),
    {
        let mut out = [0u32; 4];
        let mut i: usize = 0;
        while i < 4
            invariant
                i <= 4,
                forall|j: int| 0 <= j < i ==> out[j] == lane::not_u32(self@[j]) & rhs@[j],
            decreases 4 - i,
        {
            out[i] = !self.bits[i] & rhs.bits[i];
            i += 1;
        }
        let r = F32x4 { bits: out };
        assert(r@ =~= Seq::new(4, |j: int| lane::not_u32(self@[j]) & rhs@[j]));
        r
    }

    /// Absolute value: the sign bit of every lane cleared, all other bits kept.
    pub fn abs(self) -> (r: Self)
        ensures
            r@ == Seq::new(4, |i: int| lane::clear_sign_u32(self@[i])),
    {
        let r = Self::set1_bits(0x8000_0000).and_not(self);
        assert forall|i: int| 0 <= i < 4 implies #[trigger] r@[i] == lane::clear_sign_u32(self@[i])
        by {
            lane::lemma_bits_u32(self@[i], 0);
        }
        assert(r@ =~= Seq::new(4, |i: int| lane::clear_sign_u32(self@[i])));
        r
    }

    /// Per lane, `b` where the mask lane `self` has its sign bit set and `a` elsewhere.
    pub fn blendv(self, a: Self, b: Self) -> (r: Self)
        ensures
            r@ == Seq::new(4, |i: int| lane::select_u32(self@[i], a@[i], b@[i])),
    {
        let mut out = [0u32; 4];
        let mut i: usize = 0;
        while i < 4
            invariant
                i <= 4,
                forall|j: int| 0 <= j < i ==> out[j] == lane::select_u32(self@[j], a@[j], b@[j]),
            decreases 4 - i,
        {
            out[i] = if self.bits[i] >= 0x8000_0000 { b.bits[i] } else { a.bits[i] };
            i += 1;
        }
        let r = F32x4 { bits: out };
        assert(r@ =~= Seq::new(4, |j: int| lane::select_u32(self@[j], a@[j], b@[j])));
        r
    }

    /// The same bits read as 32-bit integer lanes.
    pub fn bitcast_i32(self) -> (r: I32x4)
        ensures
            r@ == Seq::new(4, |i: int| self@[i] as i32),
    {
        let mut out = [0i32; 4];
        let mut i: usize = 0;
        while i < 4
            invariant
                i <= 4,
                forall|j: int| 0 <= j < i ==> out[j] == self@[j] as i32,
            decreases 4 - i,
        {
            out[i] = self.bits[i] as i32;
            i += 1;
        }
        let r = I32x4::from_underlying_value(out);
        assert(r@ =~= Seq::new(4, |j: int| self@[j] as i32));
        r
    }
}

} // verus!
