//! Two lanes of 64-bit floating-point numbers in one 128-bit register, held as bit
//! patterns.
//!
//! The bit-level operations live here; they never round and never look at a lane's
//! numeric value.
use vstd::prelude::*;

use crate::i64x2::I64x2;
use crate::lane;

verus! {

/// Two lanes of IEEE-754 binary64 numbers held in one 128-bit register, lane 0 first,
/// each as its bit pattern.
#[derive(Clone, Copy)]
pub struct F64x2 {
    bits: [u64; 2],
}

impl View for F64x2 {
    type V = Seq<u64>;

    closed spec fn view(&self) -> Seq<u64> {
        self.bits@
    }
}

impl F64x2 {
    /// A value always has exactly 2 lanes.
    pub broadcast proof fn lemma_lane_count(self)
        ensures
            #[trigger] self@.len() == 2,
    {
    }

    /// Positive zero in every lane: the value with every bit clear.
    pub fn zeroes() -> (r: Self)
        ensures
            r@ == Seq::new(2, |i: int| 0u64),
    {
        let r = F64x2 { bits: [0u64; 2] };
        assert(r@ =~= Seq::new(2, |i: int| 0u64));
        r
    }

    /// The number whose bit pattern is `bits`, in every lane.
    pub fn set1_bits(bits: u64) -> (r: Self)
        ensures
            r@ == Seq::new(2, |i: int| bits),
    {
        let r = F64x2 { bits: [bits; 2] };
        assert(r@ =~= Seq::new(2, |i: int| bits));
        r
    }

    /// The register's contents as the lanes' bit patterns.
    pub fn underlying_value(self) -> (r: [u64; 2])
        ensures
            r@ == self@,
    {
        self.bits
    }

    /// The register's contents, to be changed in place.
    pub fn underlying_value_mut(&mut self) -> (r: &mut [u64; 2])
        ensures
            (*r)@ == old(self)@,
            final(self)@ == (*final(r))@,
    {
        &mut self.bits
    }

    /// The value whose lanes have the bit patterns `value`.
    pub fn from_underlying_value(value: [u64; 2]) -> (r: Self)
        ensures
            r@ == value@,
    {
        F64x2 { bits: value }
    }

    /// The bit pattern of lane `i`.
    pub fn lane_bits(self, i: usize) -> (r: u64)
        requires
            i < 2,
        ensures
            r == self@[i as int],
    {
        self.bits[i]
    }

    /// Bitwise and.
    pub fn bit_and(self, rhs: Self) -> (r: Self)
        ensures
            r@ == Seq::new(2, |i: int| self@[i] & rhs@[i]),
    {
        let mut out = [0u64; 2];
        let mut i: usize = 0;
        while i < 2
            invariant
                i <= 2,
                forall|j: int| 0 <= j < i ==> out[j] == self@[j] & rhs@[j],
            decreases 2 - i,
        {
            out[i] = self.bits[i] & rhs.bits[i];
            i += 1;
        }
        let r = F64x2 { bits: out };
        assert(r@ =~= Seq::new(2, |j: int| self@[j] & rhs@[j]));
        r
    }

    /// Bitwise or.
    pub fn bit_or(self, rhs: Self) -> (r: Self)
        ensures
            r@ == Seq::new(2, |i: int| self@[i] | rhs@[i]),
    {
        let mut out = [0u64; 2];
        let mut i: usize = 0;
        while i < 2
            invariant
                i <= 2,
                forall|j: int| 0 <= j < i ==> out[j] == self@[j] | rhs@[j],
            decreases 2 - i,
        {
            out[i] = self.bits[i] | rhs.bits[i];
            i += 1;
        }
        let r = F64x2 { bits: out };
        assert(r@ =~= Seq::new(2, |j: int| self@[j] | rhs@[j]));
        r
    }

    /// Bitwise exclusive or.
    pub fn bit_xor(self, rhs: Self) -> (r: Self)
        ensures
            r@ == Seq::new(2, |i: int| self@[i] ^ rhs@[i]),
    {
        let mut out = [0u64; 2];
        let mut i: usize = 0;
        while i < 2
            invariant
                i <= 2,
                forall|j: int| 0 <= j < i ==> out[j] == self@[j] ^ rhs@[j],
            decreases 2 - i,
        {
            out[i] = self.bits[i] ^ rhs.bits[i];
            i += 1;
        }
        let r = F64x2 { bits: out };
        assert(r@ =~= Seq::new(2, |j: int| self@[j] ^ rhs@[j]));
        r
    }

    /// Bitwise complement, as exclusive or with the all-ones integer vector.
    pub fn bit_not(self) -> (r: Self)
        ensures
            r@ == Seq::new(2, |i: int| lane::not_u64(self@[i])),
    {
        let r = I64x2::set1(-1).bitcast_f64().bit_xor(self);
        assert forall|i: int| 0 <= i < 2 implies #[trigger] r@[i] == lane::not_u64(self@[i]) by {
            lane::lemma_bits_u64(self@[i], 0);
        }
        assert(r@ =~= Seq::new(2, |i: int| lane::not_u64(self@[i])));
        r
    }

    /// The complement of `self`, and `rhs`: `!self & rhs`.
    pub fn and_not(self, rhs: Self) -> (r: Self)
        ensures
            r@ == Seq::new(2, |i: int| lane::not_u64(self@[i]) & rhs@[i]),
    {
        let mut out = [0u64; 2];
        let mut i: usize = 0;
        while i < 2
            invariant
                i <= 2,
                forall|j: int| 0 <= j < i ==> out[j] == lane::not_u64(self@[j]) & rhs@[j],
            decreases 2 - i,
        {
            out[i] = !self.bits[i] & rhs.bits[i];
            i += 1;
        }
        let r = F64x2 { bits: out };
        assert(r@ =~= Seq::new(2, |j: int| lane::not_u64(self@[j]) & rhs@[j]));
        r
    }

    /// Absolute value: the sign bit of every lane cleared, all other bits kept.
    pub fn abs(self) -> (r: Self)
        ensures
            r@ == Seq::new(2, |i: int| lane::clear_sign_u64(self@[i])),
    {
        let r = Self::set1_bits(0x8000_0000_0000_0000).and_not(self);
        assert forall|i: int| 0 <= i < 2 implies #[trigger] r@[i] == lane::clear_sign_u64(self@[i])
        by {
            lane::lemma_bits_u64(self@[i], 0);
        }
        assert(r@ =~= Seq::new(2, |i: int| lane::clear_sign_u64(self@[i])));
        r
    }

    /// Per lane, `b` where the mask lane `self` has its sign bit set and `a` elsewhere.
    pub fn blendv(self, a: Self, b: Self) -> (r: Self)
        ensures
            r@ == Seq::new(2, |i: int| lane::select_u64(self@[i], a@[i], b@[i])),
    {
        let mut out = [0u64; 2];
        let mut i: usize = 0;
        while i < 2
            invariant
                i <= 2,
                forall|j: int| 0 <= j < i ==> out[j] == lane::select_u64(self@[j], a@[j], b@[j]),
            decreases 2 - i,
        {
            out[i] = if self.bits[i] >= 0x8000_0000_0000_0000 { b.bits[i] } else { a.bits[i] };
            i += 1;
        }
        let r = F64x2 { bits: out };
        assert(r@ =~= Seq::new(2, |j: int| lane::select_u64(self@[j], a@[j], b@[j])));
        r
    }

    /// The same bits read as 64-bit integer lanes.
    pub fn bitcast_i64(self) -> (r: I64x2)
        ensures
            r@ == Seq::new(2, |i: int| self@[i] as i64),
    {
        let mut out = [0i64; 2];
        let mut i: usize = 0;
        while i < 2
            invariant
                i <= 2,
                forall|j: int| 0 <= j < i ==> out[j] == self@[j] as i64,
            decreases 2 - i,
        {
            out[i] = self.bits[i] as i64;
            i += 1;
        }
        let r = I64x2::from_underlying_value(out);
        assert(r@ =~= Seq::new(2, |j: int| self@[j] as i64));
        r
    }
}

} // verus!
