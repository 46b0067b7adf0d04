//! Backend-generic access to the vector operations.
//!
//! Code written against `SimdI16` or `SimdI32`, or against a `Backend`'s associated
//! types, runs unchanged on every backend; which one is used is fixed when the program is
//! built. Every implementation below is proved to meet the trait's per-lane contracts, so
//! all backends agree lane for lane.
use vstd::prelude::*;

use crate::i16x8::I16x8;
use crate::i32x4::I32x4;
use crate::lane;
use crate::scalar;
use crate::sse2;

verus! {

broadcast use I16x8::lemma_lane_count, I32x4::lemma_lane_count;

/// The operations that every backend offers on 16-bit integer lanes.
///
/// Each contract is stated lane by lane with the functions of `lane`, the same ones the
/// scalar backend meets: a backend differs from another only in how many lanes it
/// processes per call.
pub trait SimdI16: Sized + Copy {
    /// The lanes, lane 0 first.
    spec fn lanes(&self) -> Seq<i16>;

    /// How many lanes one value holds.
    spec fn lane_count() -> nat;

    /// A value holds `lane_count()` lanes.
    proof fn lemma_lane_count(v: Self)
        ensures
            v.lanes().len() == Self::lane_count(),
    ;

    /// The value with every bit clear.
    fn zeroes() -> (r: Self)
        ensures
            r.lanes() == Seq::new(Self::lane_count(), |i: int| 0i16),
    ;

    /// `x` in every lane.
    fn set1(x: i16) -> (r: Self)
        ensures
            r.lanes() == Seq::new(Self::lane_count(), |i: int| x),
    ;

    /// Lane-wise wrapping addition.
    fn add(self, rhs: Self) -> (r: Self)
        ensures
            r.lanes() == Seq::new(
                Self::lane_count(),
                |i: int| self.lanes()[i].wrapping_add(rhs.lanes()[i]),
            ),
    ;

    /// Lane-wise wrapping subtraction.
    fn sub(self, rhs: Self) -> (r: Self)
        ensures
            r.lanes() == Seq::new(
                Self::lane_count(),
                |i: int| self.lanes()[i].wrapping_sub(rhs.lanes()[i]),
            ),
    ;

    /// Lane-wise wrapping multiplication.
    fn mul(self, rhs: Self) -> (r: Self)
        ensures
            r.lanes() == Seq::new(
                Self::lane_count(),
                |i: int| self.lanes()[i].wrapping_mul(rhs.lanes()[i]),
            ),
    ;

    /// Bitwise and.
    fn bit_and(self, rhs: Self) -> (r: Self)
        ensures
            r.lanes() == Seq::new(Self::lane_count(), |i: int| self.lanes()[i] & rhs.lanes()[i]),
    ;

    /// Bitwise or.
    fn bit_or(self, rhs: Self) -> (r: Self)
        ensures
            r.lanes() == Seq::new(Self::lane_count(), |i: int| self.lanes()[i] | rhs.lanes()[i]),
    ;

    /// Bitwise exclusive or.
    fn bit_xor(self, rhs: Self) -> (r: Self)
        ensures
            r.lanes() == Seq::new(Self::lane_count(), |i: int| self.lanes()[i] ^ rhs.lanes()[i]),
    ;

    /// Bitwise complement.
    fn bit_not(self) -> (r: Self)
        ensures
            r.lanes() == Seq::new(Self::lane_count(), |i: int| lane::not_i16(self.lanes()[i])),
    ;

    /// `!self & rhs`.
    fn and_not(self, rhs: Self) -> (r: Self)
        ensures
            r.lanes() == Seq::new(
                Self::lane_count(),
                |i: int| lane::not_i16(self.lanes()[i]) & rhs.lanes()[i],
            ),
    ;

    /// Lane-wise absolute value; the minimum value stays as it is.
    fn abs(self) -> (r: Self)
        ensures
            r.lanes() == Seq::new(Self::lane_count(), |i: int| lane::abs_i16(self.lanes()[i])),
    ;

    /// Lane-wise `self == rhs`, as a mask.
    fn cmp_eq(self, rhs: Self) -> (r: Self)
        ensures
            r.lanes() == Seq::new(
                Self::lane_count(),
                |i: int| lane::mask_i16(self.lanes()[i] == rhs.lanes()[i]),
            ),
    ;

    /// Lane-wise `self != rhs`, as a mask.
    fn cmp_neq(self, rhs: Self) -> (r: Self)
        ensures
            r.lanes() == Seq::new(
                Self::lane_count(),
                |i: int| lane::mask_i16(self.lanes()[i] != rhs.lanes()[i]),
            ),
    ;

    /// Lane-wise `self < rhs`, as a mask.
    fn cmp_lt(self, rhs: Self) -> (r: Self)
        ensures
            r.lanes() == Seq::new(
                Self::lane_count(),
                |i: int| lane::mask_i16(self.lanes()[i] < rhs.lanes()[i]),
            ),
    ;

    /// Lane-wise `self <= rhs`, as a mask.
    fn cmp_lte(self, rhs: Self) -> (r: Self)
        ensures
            r.lanes() == Seq::new(
                Self::lane_count(),
                |i: int| lane::mask_i16(self.lanes()[i] <= rhs.lanes()[i]),
            ),
    ;

    /// Lane-wise `self > rhs`, as a mask.
    fn cmp_gt(self, rhs: Self) -> (r: Self)
        ensures
            r.lanes() == Seq::new(
                Self::lane_count(),
                |i: int| lane::mask_i16(self.lanes()[i] > rhs.lanes()[i]),
            ),
    ;

    /// Lane-wise `self >= rhs`, as a mask.
    fn cmp_gte(self, rhs: Self) -> (r: Self)
        ensures
            r.lanes() == Seq::new(
                Self::lane_count(),
                |i: int| lane::mask_i16(self.lanes()[i] >= rhs.lanes()[i]),
            ),
    ;

    /// Lane-wise minimum.
    fn min(self, rhs: Self) -> (r: Self)
        ensures
            r.lanes() == Seq::new(
                Self::lane_count(),
                |i: int| lane::min_i16(self.lanes()[i], rhs.lanes()[i]),
            ),
    ;

    /// Lane-wise maximum.
    fn max(self, rhs: Self) -> (r: Self)
        ensures
            r.lanes() == Seq::new(
                Self::lane_count(),
                |i: int| lane::max_i16(self.lanes()[i], rhs.lanes()[i]),
            ),
    ;

    /// Per lane, `b` where the comparison mask `self` is all ones and `a` where it is zero.
    fn blendv(self, a: Self, b: Self) -> (r: Self)
        requires
            lane::all_masks_i16(self.lanes()),
        ensures
            r.lanes() == Seq::new(
                Self::lane_count(),
                |i: int| if self.lanes()[i] == 0 { a.lanes()[i] } else { b.lanes()[i] },
            ),
    ;

    /// Shifts each lane's bit pattern left by `rhs`, filling with zeros.
    fn shl(self, rhs: i32) -> (r: Self)
        requires
            0 <= rhs < 16,
        ensures
            r.lanes() == Seq::new(
                Self::lane_count(),
                |i: int| lane::shl_i16(self.lanes()[i], rhs as u32),
            ),
    ;

    /// Shifts each lane's bit pattern right by `rhs`, filling with zeros.
    fn shr(self, rhs: i32) -> (r: Self)
        requires
            0 <= rhs < 16,
        ensures
            r.lanes() == Seq::new(
                Self::lane_count(),
                |i: int| lane::shr_i16(self.lanes()[i], rhs as u32),
            ),
    ;

    /// The sum of all lanes.
    fn horizontal_add(self) -> (r: i64)
        ensures
            r == lane::sum_of(|i: int| self.lanes()[i] as int, Self::lane_count() as int),
    ;
}

impl SimdI16 for I16x8 {
    open spec fn lanes(&self) -> Seq<i16> {
        self@
    }

    open spec fn lane_count() -> nat {
        8
    }

    proof fn lemma_lane_count(v: Self) {
    }

    fn zeroes() -> (r: Self) {
        let r = I16x8::zeroes();
        assert(r.lanes() =~= Seq::new(8, |i: int| 0i16));
        r
    }

    fn set1(x: i16) -> (r: Self) {
        let r = I16x8::set1(x);
        assert(r.lanes() =~= Seq::new(8, |i: int| x));
        r
    }

    fn add(self, rhs: Self) -> (r: Self) {
        let r = I16x8::add(self, rhs);
        assert(r.lanes() =~= Seq::new(8, |i: int| self.lanes()[i].wrapping_add(rhs.lanes()[i])));
        r
    }

    fn sub(self, rhs: Self) -> (r: Self) {
        let r = I16x8::sub(self, rhs);
        assert(r.lanes() =~= Seq::new(8, |i: int| self.lanes()[i].wrapping_sub(rhs.lanes()[i])));
        r
    }

    fn mul(self, rhs: Self) -> (r: Self) {
        let r = I16x8::mul(self, rhs);
        assert(r.lanes() =~= Seq::new(8, |i: int| self.lanes()[i].wrapping_mul(rhs.lanes()[i])));
        r
    }

    fn bit_and(self, rhs: Self) -> (r: Self) {
        let r = I16x8::bit_and(self, rhs);
        assert(r.lanes() =~= Seq::new(8, |i: int| self.lanes()[i] & rhs.lanes()[i]));
        r
    }

    fn bit_or(self, rhs: Self) -> (r: Self) {
        let r = I16x8::bit_or(self, rhs);
        assert(r.lanes() =~= Seq::new(8, |i: int| self.lanes()[i] | rhs.lanes()[i]));
        r
    }

    fn bit_xor(self, rhs: Self) -> (r: Self) {
        let r = I16x8::bit_xor(self, rhs);
        assert(r.lanes() =~= Seq::new(8, |i: int| self.lanes()[i] ^ rhs.lanes()[i]));
        r
    }

    fn bit_not(self) -> (r: Self) {
        let r = I16x8::bit_not(self);
        assert(r.lanes() =~= Seq::new(8, |i: int| lane::not_i16(self.lanes()[i])));
        r
    }

    fn and_not(self, rhs: Self) -> (r: Self) {
        let r = I16x8::and_not(self, rhs);
        assert(r.lanes() =~= Seq::new(8, |i: int| lane::not_i16(self.lanes()[i]) & rhs.lanes()[i]));
        r
    }

    fn abs(self) -> (r: Self) {
        let r = I16x8::abs(self);
        assert(r.lanes() =~= Seq::new(8, |i: int| lane::abs_i16(self.lanes()[i])));
        r
    }

    fn cmp_eq(self, rhs: Self) -> (r: Self) {
        let r = I16x8::cmp_eq(self, rhs);
        assert(r.lanes() =~= Seq::new(
            8,
            |i: int| lane::mask_i16(self.lanes()[i] == rhs.lanes()[i]),
        ));
        r
    }

    fn cmp_neq(self, rhs: Self) -> (r: Self) {
        let r = I16x8::cmp_neq(self, rhs);
        assert(r.lanes() =~= Seq::new(
            8,
            |i: int| lane::mask_i16(self.lanes()[i] != rhs.lanes()[i]),
        ));
        r
    }

    fn cmp_lt(self, rhs: Self) -> (r: Self) {
        let r = I16x8::cmp_lt(self, rhs);
        assert(r.lanes() =~= Seq::new(
            8,
            |i: int| lane::mask_i16(self.lanes()[i] < rhs.lanes()[i]),
        ));
        r
    }

    fn cmp_lte(self, rhs: Self) -> (r: Self) {
        let r = I16x8::cmp_lte(self, rhs);
        assert(r.lanes() =~= Seq::new(
            8,
            |i: int| lane::mask_i16(self.lanes()[i] <= rhs.lanes()[i]),
        ));
        r
    }

    fn cmp_gt(self, rhs: Self) -> (r: Self) {
        let r = I16x8::cmp_gt(self, rhs);
        assert(r.lanes() =~= Seq::new(
            8,
            |i: int| lane::mask_i16(self.lanes()[i] > rhs.lanes()[i]),
        ));
        r
    }

    fn cmp_gte(self, rhs: Self) -> (r: Self) {
        let r = I16x8::cmp_gte(self, rhs);
        assert(r.lanes() =~= Seq::new(
            8,
            |i: int| lane::mask_i16(self.lanes()[i] >= rhs.lanes()[i]),
        ));
        r
    }

    fn min(self, rhs: Self) -> (r: Self) {
        let r = I16x8::min(self, rhs);
        assert(r.lanes() =~= Seq::new(8, |i: int| lane::min_i16(self.lanes()[i], rhs.lanes()[i])));
        r
    }

    fn max(self, rhs: Self) -> (r: Self) {
        let r = I16x8::max(self, rhs);
        assert(r.lanes() =~= Seq::new(8, |i: int| lane::max_i16(self.lanes()[i], rhs.lanes()[i])));
        r
    }

    fn blendv(self, a: Self, b: Self) -> (r: Self) {
        let r = I16x8::blendv(self, a, b);
        assert(r.lanes() =~= Seq::new(
            8,
            |i: int| if self.lanes()[i] == 0 { a.lanes()[i] } else { b.lanes()[i] },
        ));
        r
    }

    fn shl(self, rhs: i32) -> (r: Self) {
        let r = I16x8::shl(self, rhs);
        assert(r.lanes() =~= Seq::new(8, |i: int| lane::shl_i16(self.lanes()[i], rhs as u32)));
        r
    }

    fn shr(self, rhs: i32) -> (r: Self) {
        let r = I16x8::shr(self, rhs);
        assert(r.lanes() =~= Seq::new(8, |i: int| lane::shr_i16(self.lanes()[i], rhs as u32)));
        r
    }

    fn horizontal_add(self) -> (r: i64) {
        I16x8::horizontal_add(self)
    }
}

/// Eight 16-bit lanes on the narrower extension, whose absolute value, blend and most
/// comparisons are built from simpler
/// operations.
#[derive(Clone, Copy)]
pub struct Sse2I16x8 {
    pub v: I16x8,
}

impl SimdI16 for Sse2I16x8 {
    open spec fn lanes(&self) -> Seq<i16> {
        self.v@
    }

    open spec fn lane_count() -> nat {
        8
    }

    proof fn lemma_lane_count(v: Self) {
    }

    fn zeroes() -> (r: Self) {
        let r = Sse2I16x8 { v: I16x8::zeroes() };
        assert(r.lanes() =~= Seq::new(8, |i: int| 0i16));
        r
    }

    fn set1(x: i16) -> (r: Self) {
        let r = Sse2I16x8 { v: I16x8::set1(x) };
        assert(r.lanes() =~= Seq::new(8, |i: int| x));
        r
    }

    fn add(self, rhs: Self) -> (r: Self) {
        let r = Sse2I16x8 { v: self.v.add(rhs.v) };
        assert(r.lanes() =~= Seq::new(8, |i: int| self.lanes()[i].wrapping_add(rhs.lanes()[i])));
        r
    }

    fn sub(self, rhs: Self) -> (r: Self) {
        let r = Sse2I16x8 { v: self.v.sub(rhs.v) };
        assert(r.lanes() =~= Seq::new(8, |i: int| self.lanes()[i].wrapping_sub(rhs.lanes()[i])));
        r
    }

    fn mul(self, rhs: Self) -> (r: Self) {
        let r = Sse2I16x8 { v: self.v.mul(rhs.v) };
        assert(r.lanes() =~= Seq::new(8, |i: int| self.lanes()[i].wrapping_mul(rhs.lanes()[i])));
        r
    }

    fn bit_and(self, rhs: Self) -> (r: Self) {
        let r = Sse2I16x8 { v: self.v.bit_and(rhs.v) };
        assert(r.lanes() =~= Seq::new(8, |i: int| self.lanes()[i] & rhs.lanes()[i]));
        r
    }

    fn bit_or(self, rhs: Self) -> (r: Self) {
        let r = Sse2I16x8 { v: self.v.bit_or(rhs.v) };
        assert(r.lanes() =~= Seq::new(8, |i: int| self.lanes()[i] | rhs.lanes()[i]));
        r
    }

    fn bit_xor(self, rhs: Self) -> (r: Self) {
        let r = Sse2I16x8 { v: self.v.bit_xor(rhs.v) };
        assert(r.lanes() =~= Seq::new(8, |i: int| self.lanes()[i] ^ rhs.lanes()[i]));
        r
    }

    fn bit_not(self) -> (r: Self) {
        let r = Sse2I16x8 { v: self.v.bit_not() };
        assert(r.lanes() =~= Seq::new(8, |i: int| lane::not_i16(self.lanes()[i])));
        r
    }

    fn and_not(self, rhs: Self) -> (r: Self) {
        let r = Sse2I16x8 { v: self.v.and_not(rhs.v) };
        assert(r.lanes() =~= Seq::new(8, |i: int| lane::not_i16(self.lanes()[i]) & rhs.lanes()[i]));
        r
    }

    fn abs(self) -> (r: Self) {
        let r = Sse2I16x8 { v: sse2::abs_i16(self.v) };
        assert(r.lanes() =~= Seq::new(8, |i: int| lane::abs_i16(self.lanes()[i])));
        r
    }

    fn cmp_eq(self, rhs: Self) -> (r: Self) {
        let r = Sse2I16x8 { v: self.v.cmp_eq(rhs.v) };
        assert(r.lanes() =~= Seq::new(
            8,
            |i: int| lane::mask_i16(self.lanes()[i] == rhs.lanes()[i]),
        ));
        r
    }

    fn cmp_neq(self, rhs: Self) -> (r: Self) {
        let r = Sse2I16x8 { v: sse2::neq_i16(self.v, rhs.v) };
        assert(r.lanes() =~= Seq::new(
            8,
            |i: int| lane::mask_i16(self.lanes()[i] != rhs.lanes()[i]),
        ));
        r
    }

    fn cmp_lt(self, rhs: Self) -> (r: Self) {
        let r = Sse2I16x8 { v: sse2::lt_i16(self.v, rhs.v) };
        assert(r.lanes() =~= Seq::new(
            8,
            |i: int| lane::mask_i16(self.lanes()[i] < rhs.lanes()[i]),
        ));
        r
    }

    fn cmp_lte(self, rhs: Self) -> (r: Self) {
        let r = Sse2I16x8 { v: sse2::lte_i16(self.v, rhs.v) };
        assert(r.lanes() =~= Seq::new(
            8,
            |i: int| lane::mask_i16(self.lanes()[i] <= rhs.lanes()[i]),
        ));
        r
    }

    fn cmp_gt(self, rhs: Self) -> (r: Self) {
        let r = Sse2I16x8 { v: self.v.cmp_gt(rhs.v) };
        assert(r.lanes() =~= Seq::new(
            8,
            |i: int| lane::mask_i16(self.lanes()[i] > rhs.lanes()[i]),
        ));
        r
    }

    fn cmp_gte(self, rhs: Self) -> (r: Self) {
        let r = Sse2I16x8 { v: sse2::gte_i16(self.v, rhs.v) };
        assert(r.lanes() =~= Seq::new(
            8,
            |i: int| lane::mask_i16(self.lanes()[i] >= rhs.lanes()[i]),
        ));
        r
    }

    fn min(self, rhs: Self) -> (r: Self) {
        let r = Sse2I16x8 { v: self.v.min(rhs.v) };
        assert(r.lanes() =~= Seq::new(8, |i: int| lane::min_i16(self.lanes()[i], rhs.lanes()[i])));
        r
    }

    fn max(self, rhs: Self) -> (r: Self) {
        let r = Sse2I16x8 { v: self.v.max(rhs.v) };
        assert(r.lanes() =~= Seq::new(8, |i: int| lane::max_i16(self.lanes()[i], rhs.lanes()[i])));
        r
    }

    fn blendv(self, a: Self, b: Self) -> (r: Self) {
        let r = Sse2I16x8 { v: sse2::blendv_i16(a.v, b.v, self.v) };
        assert(r.lanes() =~= Seq::new(
            8,
            |i: int| if self.lanes()[i] == 0 { a.lanes()[i] } else { b.lanes()[i] },
        ));
        r
    }

    fn shl(self, rhs: i32) -> (r: Self) {
        let r = Sse2I16x8 { v: self.v.shl(rhs) };
        assert(r.lanes() =~= Seq::new(8, |i: int| lane::shl_i16(self.lanes()[i], rhs as u32)));
        r
    }

    fn shr(self, rhs: i32) -> (r: Self) {
        let r = Sse2I16x8 { v: self.v.shr(rhs) };
        assert(r.lanes() =~= Seq::new(8, |i: int| lane::shr_i16(self.lanes()[i], rhs as u32)));
        r
    }

    fn horizontal_add(self) -> (r: i64) {
        self.v.horizontal_add()
    }
}

/// A single 16-bit lane: the scalar backend, for targets without a vector extension.
#[derive(Clone, Copy)]
pub struct I16x1 {
    pub lane: i16,
}

impl SimdI16 for I16x1 {
    open spec fn lanes(&self) -> Seq<i16> {
        seq![self.lane]
    }

    open spec fn lane_count() -> nat {
        1
    }

    proof fn lemma_lane_count(v: Self) {
    }

    fn zeroes() -> (r: Self) {
        let r = I16x1 { lane: scalar::zeroes_i16() };
        assert(r.lanes() =~= Seq::new(1, |i: int| 0i16));
        r
    }

    fn set1(x: i16) -> (r: Self) {
        let r = I16x1 { lane: scalar::set1_i16(x) };
        assert(r.lanes() =~= Seq::new(1, |i: int| x));
        r
    }

    fn add(self, rhs: Self) -> (r: Self) {
        let r = I16x1 { lane: scalar::add_i16(self.lane, rhs.lane) };
        assert(r.lanes() =~= Seq::new(1, |i: int| self.lanes()[i].wrapping_add(rhs.lanes()[i])));
        r
    }

    fn sub(self, rhs: Self) -> (r: Self) {
        let r = I16x1 { lane: scalar::sub_i16(self.lane, rhs.lane) };
        assert(r.lanes() =~= Seq::new(1, |i: int| self.lanes()[i].wrapping_sub(rhs.lanes()[i])));
        r
    }

    fn mul(self, rhs: Self) -> (r: Self) {
        let r = I16x1 { lane: scalar::mul_i16(self.lane, rhs.lane) };
        assert(r.lanes() =~= Seq::new(1, |i: int| self.lanes()[i].wrapping_mul(rhs.lanes()[i])));
        r
    }

    fn bit_and(self, rhs: Self) -> (r: Self) {
        let r = I16x1 { lane: self.lane & rhs.lane };
        assert(r.lanes() =~= Seq::new(1, |i: int| self.lanes()[i] & rhs.lanes()[i]));
        r
    }

    fn bit_or(self, rhs: Self) -> (r: Self) {
        let r = I16x1 { lane: self.lane | rhs.lane };
        assert(r.lanes() =~= Seq::new(1, |i: int| self.lanes()[i] | rhs.lanes()[i]));
        r
    }

    fn bit_xor(self, rhs: Self) -> (r: Self) {
        let r = I16x1 { lane: self.lane ^ rhs.lane };
        assert(r.lanes() =~= Seq::new(1, |i: int| self.lanes()[i] ^ rhs.lanes()[i]));
        r
    }

    fn bit_not(self) -> (r: Self) {
        let r = I16x1 { lane: !self.lane };
        assert(r.lanes()[0] == lane::not_i16(self.lanes()[0]));
        assert(r.lanes() =~= Seq::new(1, |i: int| lane::not_i16(self.lanes()[i])));
        r
    }

    fn and_not(self, rhs: Self) -> (r: Self) {
        let r = I16x1 { lane: !self.lane & rhs.lane };
        assert(r.lanes() =~= Seq::new(1, |i: int| lane::not_i16(self.lanes()[i]) & rhs.lanes()[i]));
        r
    }

    fn abs(self) -> (r: Self) {
        let r = I16x1 { lane: scalar::abs_i16(self.lane) };
        assert(r.lanes() =~= Seq::new(1, |i: int| lane::abs_i16(self.lanes()[i])));
        r
    }

    fn cmp_eq(self, rhs: Self) -> (r: Self) {
        let r = I16x1 { lane: scalar::eq_i16(self.lane, rhs.lane) };
        assert(r.lanes() =~= Seq::new(
            1,
            |i: int| lane::mask_i16(self.lanes()[i] == rhs.lanes()[i]),
        ));
        r
    }

    fn cmp_neq(self, rhs: Self) -> (r: Self) {
        let r = I16x1 { lane: scalar::neq_i16(self.lane, rhs.lane) };
        assert(r.lanes() =~= Seq::new(
            1,
            |i: int| lane::mask_i16(self.lanes()[i] != rhs.lanes()[i]),
        ));
        r
    }

    fn cmp_lt(self, rhs: Self) -> (r: Self) {
        let r = I16x1 { lane: scalar::lt_i16(self.lane, rhs.lane) };
        assert(r.lanes() =~= Seq::new(
            1,
            |i: int| lane::mask_i16(self.lanes()[i] < rhs.lanes()[i]),
        ));
        r
    }

    fn cmp_lte(self, rhs: Self) -> (r: Self) {
        let r = I16x1 { lane: scalar::lte_i16(self.lane, rhs.lane) };
        assert(r.lanes() =~= Seq::new(
            1,
            |i: int| lane::mask_i16(self.lanes()[i] <= rhs.lanes()[i]),
        ));
        r
    }

    fn cmp_gt(self, rhs: Self) -> (r: Self) {
        let r = I16x1 { lane: scalar::gt_i16(self.lane, rhs.lane) };
        assert(r.lanes() =~= Seq::new(
            1,
            |i: int| lane::mask_i16(self.lanes()[i] > rhs.lanes()[i]),
        ));
        r
    }

    fn cmp_gte(self, rhs: Self) -> (r: Self) {
        let r = I16x1 { lane: scalar::gte_i16(self.lane, rhs.lane) };
        assert(r.lanes() =~= Seq::new(
            1,
            |i: int| lane::mask_i16(self.lanes()[i] >= rhs.lanes()[i]),
        ));
        r
    }

    fn min(self, rhs: Self) -> (r: Self) {
        let r = I16x1 { lane: scalar::min_i16(self.lane, rhs.lane) };
        assert(r.lanes() =~= Seq::new(1, |i: int| lane::min_i16(self.lanes()[i], rhs.lanes()[i])));
        r
    }

    fn max(self, rhs: Self) -> (r: Self) {
        let r = I16x1 { lane: scalar::max_i16(self.lane, rhs.lane) };
        assert(r.lanes() =~= Seq::new(1, |i: int| lane::max_i16(self.lanes()[i], rhs.lanes()[i])));
        r
    }

    fn blendv(self, a: Self, b: Self) -> (r: Self) {
        let r = I16x1 { lane: scalar::blendv_i16(a.lane, b.lane, self.lane) };
        assert(r.lanes() =~= Seq::new(
            1,
            |i: int| if self.lanes()[i] == 0 { a.lanes()[i] } else { b.lanes()[i] },
        ));
        r
    }

    fn shl(self, rhs: i32) -> (r: Self) {
        let r = I16x1 { lane: scalar::shl_i16(self.lane, rhs) };
        assert(r.lanes() =~= Seq::new(1, |i: int| lane::shl_i16(self.lanes()[i], rhs as u32)));
        r
    }

    fn shr(self, rhs: i32) -> (r: Self) {
        let r = I16x1 { lane: scalar::shr_i16(self.lane, rhs) };
        assert(r.lanes() =~= Seq::new(1, |i: int| lane::shr_i16(self.lanes()[i], rhs as u32)));
        r
    }

    fn horizontal_add(self) -> (r: i64) {
        let r = self.lane as i64;
        proof {
            reveal_with_fuel(lane::sum_of, 2);
        }
        r
    }
}

/// Sixteen 16-bit lanes held in two 128-bit registers, `lo` with lanes 0 to 7 and
/// `hi` with lanes 8 to 15: the widest backend, each operation done once per register.
#[derive(Clone, Copy)]
pub struct I16x16 {
    pub lo: I16x8,
    pub hi: I16x8,
}

impl SimdI16 for I16x16 {
    open spec fn lanes(&self) -> Seq<i16> {
        self.lo@ + self.hi@
    }

    open spec fn lane_count() -> nat {
        16
    }

    proof fn lemma_lane_count(v: Self) {
    }

    fn zeroes() -> (r: Self) {
        let r = I16x16 { lo: I16x8::zeroes(), hi: I16x8::zeroes() };
        assert(r.lanes() =~= Seq::new(16, |i: int| 0i16));
        r
    }

    fn set1(x: i16) -> (r: Self) {
        let r = I16x16 { lo: I16x8::set1(x), hi: I16x8::set1(x) };
        assert(r.lanes() =~= Seq::new(16, |i: int| x));
        r
    }

    fn add(self, rhs: Self) -> (r: Self) {
        let r = I16x16 { lo: self.lo.add(rhs.lo), hi: self.hi.add(rhs.hi) };
        assert(r.lanes() =~= Seq::new(16, |i: int| self.lanes()[i].wrapping_add(rhs.lanes()[i])));
        r
    }

    fn sub(self, rhs: Self) -> (r: Self) {
        let r = I16x16 { lo: self.lo.sub(rhs.lo), hi: self.hi.sub(rhs.hi) };
        assert(r.lanes() =~= Seq::new(16, |i: int| self.lanes()[i].wrapping_sub(rhs.lanes()[i])));
        r
    }

    fn mul(self, rhs: Self) -> (r: Self) {
        let r = I16x16 { lo: self.lo.mul(rhs.lo), hi: self.hi.mul(rhs.hi) };
        assert(r.lanes() =~= Seq::new(16, |i: int| self.lanes()[i].wrapping_mul(rhs.lanes()[i])));
        r
    }

    fn bit_and(self, rhs: Self) -> (r: Self) {
        let r = I16x16 { lo: self.lo.bit_and(rhs.lo), hi: self.hi.bit_and(rhs.hi) };
        assert(r.lanes() =~= Seq::new(16, |i: int| self.lanes()[i] & rhs.lanes()[i]));
        r
    }

    fn bit_or(self, rhs: Self) -> (r: Self) {
        let r = I16x16 { lo: self.lo.bit_or(rhs.lo), hi: self.hi.bit_or(rhs.hi) };
        assert(r.lanes() =~= Seq::new(16, |i: int| self.lanes()[i] | rhs.lanes()[i]));
        r
    }

    fn bit_xor(self, rhs: Self) -> (r: Self) {
        let r = I16x16 { lo: self.lo.bit_xor(rhs.lo), hi: self.hi.bit_xor(rhs.hi) };
        assert(r.lanes() =~= Seq::new(16, |i: int| self.lanes()[i] ^ rhs.lanes()[i]));
        r
    }

    fn bit_not(self) -> (r: Self) {
        let r = I16x16 { lo: self.lo.bit_not(), hi: self.hi.bit_not() };
        assert(r.lanes() =~= Seq::new(16, |i: int| lane::not_i16(self.lanes()[i])));
        r
    }

    fn and_not(self, rhs: Self) -> (r: Self) {
        let r = I16x16 { lo: self.lo.and_not(rhs.lo), hi: self.hi.and_not(rhs.hi) };
        assert(r.lanes() =~= Seq::new(
            16,
            |i: int| lane::not_i16(self.lanes()[i]) & rhs.lanes()[i],
        ));
        r
    }

    fn abs(self) -> (r: Self) {
        let r = I16x16 { lo: self.lo.abs(), hi: self.hi.abs() };
        assert(r.lanes() =~= Seq::new(16, |i: int| lane::abs_i16(self.lanes()[i])));
        r
    }

    fn cmp_eq(self, rhs: Self) -> (r: Self) {
        let r = I16x16 { lo: self.lo.cmp_eq(rhs.lo), hi: self.hi.cmp_eq(rhs.hi) };
        assert(r.lanes() =~= Seq::new(
            16,
            |i: int| lane::mask_i16(self.lanes()[i] == rhs.lanes()[i]),
        ));
        r
    }

    fn cmp_neq(self, rhs: Self) -> (r: Self) {
        let r = I16x16 { lo: self.lo.cmp_neq(rhs.lo), hi: self.hi.cmp_neq(rhs.hi) };
        assert(r.lanes() =~= Seq::new(
            16,
            |i: int| lane::mask_i16(self.lanes()[i] != rhs.lanes()[i]),
        ));
        r
    }

    fn cmp_lt(self, rhs: Self) -> (r: Self) {
        let r = I16x16 { lo: self.lo.cmp_lt(rhs.lo), hi: self.hi.cmp_lt(rhs.hi) };
        assert(r.lanes() =~= Seq::new(
            16,
            |i: int| lane::mask_i16(self.lanes()[i] < rhs.lanes()[i]),
        ));
        r
    }

    fn cmp_lte(self, rhs: Self) -> (r: Self) {
        let r = I16x16 { lo: self.lo.cmp_lte(rhs.lo), hi: self.hi.cmp_lte(rhs.hi) };
        assert(r.lanes() =~= Seq::new(
            16,
            |i: int| lane::mask_i16(self.lanes()[i] <= rhs.lanes()[i]),
        ));
        r
    }

    fn cmp_gt(self, rhs: Self) -> (r: Self) {
        let r = I16x16 { lo: self.lo.cmp_gt(rhs.lo), hi: self.hi.cmp_gt(rhs.hi) };
        assert(r.lanes() =~= Seq::new(
            16,
            |i: int| lane::mask_i16(self.lanes()[i] > rhs.lanes()[i]),
        ));
        r
    }

    fn cmp_gte(self, rhs: Self) -> (r: Self) {
        let r = I16x16 { lo: self.lo.cmp_gte(rhs.lo), hi: self.hi.cmp_gte(rhs.hi) };
        assert(r.lanes() =~= Seq::new(
            16,
            |i: int| lane::mask_i16(self.lanes()[i] >= rhs.lanes()[i]),
        ));
        r
    }

    fn min(self, rhs: Self) -> (r: Self) {
        let r = I16x16 { lo: self.lo.min(rhs.lo), hi: self.hi.min(rhs.hi) };
        assert(r.lanes() =~= Seq::new(16, |i: int| lane::min_i16(self.lanes()[i], rhs.lanes()[i])));
        r
    }

    fn max(self, rhs: Self) -> (r: Self) {
        let r = I16x16 { lo: self.lo.max(rhs.lo), hi: self.hi.max(rhs.hi) };
        assert(r.lanes() =~= Seq::new(16, |i: int| lane::max_i16(self.lanes()[i], rhs.lanes()[i])));
        r
    }

    fn blendv(self, a: Self, b: Self) -> (r: Self) {
        let r = I16x16 { lo: self.lo.blendv(a.lo, b.lo), hi: self.hi.blendv(a.hi, b.hi) };
        assert(r.lanes() =~= Seq::new(
            16,
            |i: int| if self.lanes()[i] == 0 { a.lanes()[i] } else { b.lanes()[i] },
        ));
        r
    }

    fn shl(self, rhs: i32) -> (r: Self) {
        let r = I16x16 { lo: self.lo.shl(rhs), hi: self.hi.shl(rhs) };
        assert(r.lanes() =~= Seq::new(16, |i: int| lane::shl_i16(self.lanes()[i], rhs as u32)));
        r
    }

    fn shr(self, rhs: i32) -> (r: Self) {
        let r = I16x16 { lo: self.lo.shr(rhs), hi: self.hi.shr(rhs) };
        assert(r.lanes() =~= Seq::new(16, |i: int| lane::shr_i16(self.lanes()[i], rhs as u32)));
        r
    }

    fn horizontal_add(self) -> (r: i64) {
        let low = self.lo.horizontal_add();
        let high = self.hi.horizontal_add();
        proof {
            reveal_with_fuel(lane::sum_of, 17);
        }
        low + high
    }
}

/// The operations that every backend offers on 32-bit integer lanes.
///
/// Each contract is stated lane by lane with the functions of `lane`, the same ones the
/// scalar backend meets: a backend differs from another only in how many lanes it
/// processes per call.
pub trait SimdI32: Sized + Copy {
    /// The lanes, lane 0 first.
    spec fn lanes(&self) -> Seq<i32>;

    /// How many lanes one value holds.
    spec fn lane_count() -> nat;

    /// A value holds `lane_count()` lanes.
    proof fn lemma_lane_count(v: Self)
        ensures
            v.lanes().len() == Self::lane_count(),
    ;

    /// The value with every bit clear.
    fn zeroes() -> (r: Self)
        ensures
            r.lanes() == Seq::new(Self::lane_count(), |i: int| 0i32),
    ;

    /// `x` in every lane.
    fn set1(x: i32) -> (r: Self)
        ensures
            r.lanes() == Seq::new(Self::lane_count(), |i: int| x),
    ;

    /// Lane-wise wrapping addition.
    fn add(self, rhs: Self) -> (r: Self)
        ensures
            r.lanes() == Seq::new(
                Self::lane_count(),
                |i: int| self.lanes()[i].wrapping_add(rhs.lanes()[i]),
            ),
    ;

    /// Lane-wise wrapping subtraction.
    fn sub(self, rhs: Self) -> (r: Self)
        ensures
            r.lanes() == Seq::new(
                Self::lane_count(),
                |i: int| self.lanes()[i].wrapping_sub(rhs.lanes()[i]),
            ),
    ;

    /// Lane-wise wrapping multiplication.
    fn mul(self, rhs: Self) -> (r: Self)
        ensures
            r.lanes() == Seq::new(
                Self::lane_count(),
                |i: int| self.lanes()[i].wrapping_mul(rhs.lanes()[i]),
            ),
    ;

    /// Bitwise and.
    fn bit_and(self, rhs: Self) -> (r: Self)
        ensures
            r.lanes() == Seq::new(Self::lane_count(), |i: int| self.lanes()[i] & rhs.lanes()[i]),
    ;

    /// Bitwise or.
    fn bit_or(self, rhs: Self) -> (r: Self)
        ensures
            r.lanes() == Seq::new(Self::lane_count(), |i: int| self.lanes()[i] | rhs.lanes()[i]),
    ;

    /// Bitwise exclusive or.
    fn bit_xor(self, rhs: Self) -> (r: Self)
        ensures
            r.lanes() == Seq::new(Self::lane_count(), |i: int| self.lanes()[i] ^ rhs.lanes()[i]),
    ;

    /// Bitwise complement.
    fn bit_not(self) -> (r: Self)
        ensures
            r.lanes() == Seq::new(Self::lane_count(), |i: int| lane::not_i32(self.lanes()[i])),
    ;

    /// `!self & rhs`.
    fn and_not(self, rhs: Self) -> (r: Self)
        ensures
            r.lanes() == Seq::new(
                Self::lane_count(),
                |i: int| lane::not_i32(self.lanes()[i]) & rhs.lanes()[i],
            ),
    ;

    /// Lane-wise absolute value; the minimum value stays as it is.
    fn abs(self) -> (r: Self)
        ensures
            r.lanes() == Seq::new(Self::lane_count(), |i: int| lane::abs_i32(self.lanes()[i])),
    ;

    /// Lane-wise `self == rhs`, as a mask.
    fn cmp_eq(self, rhs: Self) -> (r: Self)
        ensures
            r.lanes() == Seq::new(
                Self::lane_count(),
                |i: int| lane::mask_i32(self.lanes()[i] == rhs.lanes()[i]),
            ),
    ;

    /// Lane-wise `self != rhs`, as a mask.
    fn cmp_neq(self, rhs: Self) -> (r: Self)
        ensures
            r.lanes() == Seq::new(
                Self::lane_count(),
                |i: int| lane::mask_i32(self.lanes()[i] != rhs.lanes()[i]),
            ),
    ;

    /// Lane-wise `self < rhs`, as a mask.
    fn cmp_lt(self, rhs: Self) -> (r: Self)
        ensures
            r.lanes() == Seq::new(
                Self::lane_count(),
                |i: int| lane::mask_i32(self.lanes()[i] < rhs.lanes()[i]),
            ),
    ;

    /// Lane-wise `self <= rhs`, as a mask.
    fn cmp_lte(self, rhs: Self) -> (r: Self)
        ensures
            r.lanes() == Seq::new(
                Self::lane_count(),
                |i: int| lane::mask_i32(self.lanes()[i] <= rhs.lanes()[i]),
            ),
    ;

    /// Lane-wise `self > rhs`, as a mask.
    fn cmp_gt(self, rhs: Self) -> (r: Self)
        ensures
            r.lanes() == Seq::new(
                Self::lane_count(),
                |i: int| lane::mask_i32(self.lanes()[i] > rhs.lanes()[i]),
            ),
    ;

    /// Lane-wise `self >= rhs`, as a mask.
    fn cmp_gte(self, rhs: Self) -> (r: Self)
        ensures
            r.lanes() == Seq::new(
                Self::lane_count(),
                |i: int| lane::mask_i32(self.lanes()[i] >= rhs.lanes()[i]),
            ),
    ;

    /// Lane-wise minimum.
    fn min(self, rhs: Self) -> (r: Self)
        ensures
            r.lanes() == Seq::new(
                Self::lane_count(),
                |i: int| lane::min_i32(self.lanes()[i], rhs.lanes()[i]),
            ),
    ;

    /// Lane-wise maximum.
    fn max(self, rhs: Self) -> (r: Self)
        ensures
            r.lanes() == Seq::new(
                Self::lane_count(),
                |i: int| lane::max_i32(self.lanes()[i], rhs.lanes()[i]),
            ),
    ;

    /// Per lane, `b` where the comparison mask `self` is all ones and `a` where it is zero.
    fn blendv(self, a: Self, b: Self) -> (r: Self)
        requires
            lane::all_masks_i32(self.lanes()),
        ensures
            r.lanes() == Seq::new(
                Self::lane_count(),
                |i: int| if self.lanes()[i] == 0 { a.lanes()[i] } else { b.lanes()[i] },
            ),
    ;

    /// Shifts each lane's bit pattern left by `rhs`, filling with zeros.
    fn shl(self, rhs: i32) -> (r: Self)
        requires
            0 <= rhs < 32,
        ensures
            r.lanes() == Seq::new(
                Self::lane_count(),
                |i: int| lane::shl_i32(self.lanes()[i], rhs as u32),
            ),
    ;

    /// Shifts each lane's bit pattern right by `rhs`, filling with zeros.
    fn shr(self, rhs: i32) -> (r: Self)
        requires
            0 <= rhs < 32,
        ensures
            r.lanes() == Seq::new(
                Self::lane_count(),
                |i: int| lane::shr_i32(self.lanes()[i], rhs as u32),
            ),
    ;

    /// The sum of all lanes.
    fn horizontal_add(self) -> (r: i64)
        ensures
            r == lane::sum_of(|i: int| self.lanes()[i] as int, Self::lane_count() as int),
    ;
}

impl SimdI32 for I32x4 {
    open spec fn lanes(&self) -> Seq<i32> {
        self@
    }

    open spec fn lane_count() -> nat {
        4
    }

    proof fn lemma_lane_count(v: Self) {
    }

    fn zeroes() -> (r: Self) {
        let r = I32x4::zeroes();
        assert(r.lanes() =~= Seq::new(4, |i: int| 0i32));
        r
    }

    fn set1(x: i32) -> (r: Self) {
        let r = I32x4::set1(x);
        assert(r.lanes() =~= Seq::new(4, |i: int| x));
        r
    }

    fn add(self, rhs: Self) -> (r: Self) {
        let r = I32x4::add(self, rhs);
        assert(r.lanes() =~= Seq::new(4, |i: int| self.lanes()[i].wrapping_add(rhs.lanes()[i])));
        r
    }

    fn sub(self, rhs: Self) -> (r: Self) {
        let r = I32x4::sub(self, rhs);
        assert(r.lanes() =~= Seq::new(4, |i: int| self.lanes()[i].wrapping_sub(rhs.lanes()[i])));
        r
    }

    fn mul(self, rhs: Self) -> (r: Self) {
        let r = I32x4::mul(self, rhs);
        assert(r.lanes() =~= Seq::new(4, |i: int| self.lanes()[i].wrapping_mul(rhs.lanes()[i])));
        r
    }

    fn bit_and(self, rhs: Self) -> (r: Self) {
        let r = I32x4::bit_and(self, rhs);
        assert(r.lanes() =~= Seq::new(4, |i: int| self.lanes()[i] & rhs.lanes()[i]));
        r
    }

    fn bit_or(self, rhs: Self) -> (r: Self) {
        let r = I32x4::bit_or(self, rhs);
        assert(r.lanes() =~= Seq::new(4, |i: int| self.lanes()[i] | rhs.lanes()[i]));
        r
    }

    fn bit_xor(self, rhs: Self) -> (r: Self) {
        let r = I32x4::bit_xor(self, rhs);
        assert(r.lanes() =~= Seq::new(4, |i: int| self.lanes()[i] ^ rhs.lanes()[i]));
        r
    }

    fn bit_not(self) -> (r: Self) {
        let r = I32x4::bit_not(self);
        assert(r.lanes() =~= Seq::new(4, |i: int| lane::not_i32(self.lanes()[i])));
        r
    }

    fn and_not(self, rhs: Self) -> (r: Self) {
        let r = I32x4::and_not(self, rhs);
        assert(r.lanes() =~= Seq::new(4, |i: int| lane::not_i32(self.lanes()[i]) & rhs.lanes()[i]));
        r
    }

    fn abs(self) -> (r: Self) {
        let r = I32x4::abs(self);
        assert(r.lanes() =~= Seq::new(4, |i: int| lane::abs_i32(self.lanes()[i])));
        r
    }

    fn cmp_eq(self, rhs: Self) -> (r: Self) {
        let r = I32x4::cmp_eq(self, rhs);
        assert(r.lanes() =~= Seq::new(
            4,
            |i: int| lane::mask_i32(self.lanes()[i] == rhs.lanes()[i]),
        ));
        r
    }

    fn cmp_neq(self, rhs: Self) -> (r: Self) {
        let r = I32x4::cmp_neq(self, rhs);
        assert(r.lanes() =~= Seq::new(
            4,
            |i: int| lane::mask_i32(self.lanes()[i] != rhs.lanes()[i]),
        ));
        r
    }

    fn cmp_lt(self, rhs: Self) -> (r: Self) {
        let r = I32x4::cmp_lt(self, rhs);
        assert(r.lanes() =~= Seq::new(
            4,
            |i: int| lane::mask_i32(self.lanes()[i] < rhs.lanes()[i]),
        ));
        r
    }

    fn cmp_lte(self, rhs: Self) -> (r: Self) {
        let r = I32x4::cmp_lte(self, rhs);
        assert(r.lanes() =~= Seq::new(
            4,
            |i: int| lane::mask_i32(self.lanes()[i] <= rhs.lanes()[i]),
        ));
        r
    }

    fn cmp_gt(self, rhs: Self) -> (r: Self) {
        let r = I32x4::cmp_gt(self, rhs);
        assert(r.lanes() =~= Seq::new(
            4,
            |i: int| lane::mask_i32(self.lanes()[i] > rhs.lanes()[i]),
        ));
        r
    }

    fn cmp_gte(self, rhs: Self) -> (r: Self) {
        let r = I32x4::cmp_gte(self, rhs);
        assert(r.lanes() =~= Seq::new(
            4,
            |i: int| lane::mask_i32(self.lanes()[i] >= rhs.lanes()[i]),
        ));
        r
    }

    fn min(self, rhs: Self) -> (r: Self) {
        let r = I32x4::min(self, rhs);
        assert(r.lanes() =~= Seq::new(4, |i: int| lane::min_i32(self.lanes()[i], rhs.lanes()[i])));
        r
    }

    fn max(self, rhs: Self) -> (r: Self) {
        let r = I32x4::max(self, rhs);
        assert(r.lanes() =~= Seq::new(4, |i: int| lane::max_i32(self.lanes()[i], rhs.lanes()[i])));
        r
    }

    fn blendv(self, a: Self, b: Self) -> (r: Self) {
        let r = I32x4::blendv(self, a, b);
        assert(r.lanes() =~= Seq::new(
            4,
            |i: int| if self.lanes()[i] == 0 { a.lanes()[i] } else { b.lanes()[i] },
        ));
        r
    }

    fn shl(self, rhs: i32) -> (r: Self) {
        let r = I32x4::shl(self, rhs);
        assert(r.lanes() =~= Seq::new(4, |i: int| lane::shl_i32(self.lanes()[i], rhs as u32)));
        r
    }

    fn shr(self, rhs: i32) -> (r: Self) {
        let r = I32x4::shr(self, rhs);
        assert(r.lanes() =~= Seq::new(4, |i: int| lane::shr_i32(self.lanes()[i], rhs as u32)));
        r
    }

    fn horizontal_add(self) -> (r: i64) {
        I32x4::horizontal_add(self)
    }
}

/// Four 32-bit lanes on the narrower extension, whose multiply, minimum, maximum,
/// absolute value, blend and most comparisons are built from simpler
/// operations.
#[derive(Clone, Copy)]
pub struct Sse2I32x4 {
    pub v: I32x4,
}

impl SimdI32 for Sse2I32x4 {
    open spec fn lanes(&self) -> Seq<i32> {
        self.v@
    }

    open spec fn lane_count() -> nat {
        4
    }

    proof fn lemma_lane_count(v: Self) {
    }

    fn zeroes() -> (r: Self) {
        let r = Sse2I32x4 { v: I32x4::zeroes() };
        assert(r.lanes() =~= Seq::new(4, |i: int| 0i32));
        r
    }

    fn set1(x: i32) -> (r: Self) {
        let r = Sse2I32x4 { v: I32x4::set1(x) };
        assert(r.lanes() =~= Seq::new(4, |i: int| x));
        r
    }

    fn add(self, rhs: Self) -> (r: Self) {
        let r = Sse2I32x4 { v: self.v.add(rhs.v) };
        assert(r.lanes() =~= Seq::new(4, |i: int| self.lanes()[i].wrapping_add(rhs.lanes()[i])));
        r
    }

    fn sub(self, rhs: Self) -> (r: Self) {
        let r = Sse2I32x4 { v: self.v.sub(rhs.v) };
        assert(r.lanes() =~= Seq::new(4, |i: int| self.lanes()[i].wrapping_sub(rhs.lanes()[i])));
        r
    }

    fn mul(self, rhs: Self) -> (r: Self) {
        let r = Sse2I32x4 { v: sse2::mul_i32(self.v, rhs.v) };
        assert(r.lanes() =~= Seq::new(4, |i: int| self.lanes()[i].wrapping_mul(rhs.lanes()[i])));
        r
    }

    fn bit_and(self, rhs: Self) -> (r: Self) {
        let r = Sse2I32x4 { v: self.v.bit_and(rhs.v) };
        assert(r.lanes() =~= Seq::new(4, |i: int| self.lanes()[i] & rhs.lanes()[i]));
        r
    }

    fn bit_or(self, rhs: Self) -> (r: Self) {
        let r = Sse2I32x4 { v: self.v.bit_or(rhs.v) };
        assert(r.lanes() =~= Seq::new(4, |i: int| self.lanes()[i] | rhs.lanes()[i]));
        r
    }

    fn bit_xor(self, rhs: Self) -> (r: Self) {
        let r = Sse2I32x4 { v: self.v.bit_xor(rhs.v) };
        assert(r.lanes() =~= Seq::new(4, |i: int| self.lanes()[i] ^ rhs.lanes()[i]));
        r
    }

    fn bit_not(self) -> (r: Self) {
        let r = Sse2I32x4 { v: self.v.bit_not() };
        assert(r.lanes() =~= Seq::new(4, |i: int| lane::not_i32(self.lanes()[i])));
        r
    }

    fn and_not(self, rhs: Self) -> (r: Self) {
        let r = Sse2I32x4 { v: self.v.and_not(rhs.v) };
        assert(r.lanes() =~= Seq::new(4, |i: int| lane::not_i32(self.lanes()[i]) & rhs.lanes()[i]));
        r
    }

    fn abs(self) -> (r: Self) {
        let r = Sse2I32x4 { v: sse2::abs_i32(self.v) };
        assert(r.lanes() =~= Seq::new(4, |i: int| lane::abs_i32(self.lanes()[i])));
        r
    }

    fn cmp_eq(self, rhs: Self) -> (r: Self) {
        let r = Sse2I32x4 { v: self.v.cmp_eq(rhs.v) };
        assert(r.lanes() =~= Seq::new(
            4,
            |i: int| lane::mask_i32(self.lanes()[i] == rhs.lanes()[i]),
        ));
        r
    }

    fn cmp_neq(self, rhs: Self) -> (r: Self) {
        let r = Sse2I32x4 { v: sse2::neq_i32(self.v, rhs.v) };
        assert(r.lanes() =~= Seq::new(
            4,
            |i: int| lane::mask_i32(self.lanes()[i] != rhs.lanes()[i]),
        ));
        r
    }

    fn cmp_lt(self, rhs: Self) -> (r: Self) {
        let r = Sse2I32x4 { v: sse2::lt_i32(self.v, rhs.v) };
        assert(r.lanes() =~= Seq::new(
            4,
            |i: int| lane::mask_i32(self.lanes()[i] < rhs.lanes()[i]),
        ));
        r
    }

    fn cmp_lte(self, rhs: Self) -> (r: Self) {
        let r = Sse2I32x4 { v: sse2::lte_i32(self.v, rhs.v) };
        assert(r.lanes() =~= Seq::new(
            4,
            |i: int| lane::mask_i32(self.lanes()[i] <= rhs.lanes()[i]),
        ));
        r
    }

    fn cmp_gt(self, rhs: Self) -> (r: Self) {
        let r = Sse2I32x4 { v: self.v.cmp_gt(rhs.v) };
        assert(r.lanes() =~= Seq::new(
            4,
            |i: int| lane::mask_i32(self.lanes()[i] > rhs.lanes()[i]),
        ));
        r
    }

    fn cmp_gte(self, rhs: Self) -> (r: Self) {
        let r = Sse2I32x4 { v: sse2::gte_i32(self.v, rhs.v) };
        assert(r.lanes() =~= Seq::new(
            4,
            |i: int| lane::mask_i32(self.lanes()[i] >= rhs.lanes()[i]),
        ));
        r
    }

    fn min(self, rhs: Self) -> (r: Self) {
        let r = Sse2I32x4 { v: sse2::min_i32(self.v, rhs.v) };
        assert(r.lanes() =~= Seq::new(4, |i: int| lane::min_i32(self.lanes()[i], rhs.lanes()[i])));
        r
    }

    fn max(self, rhs: Self) -> (r: Self) {
        let r = Sse2I32x4 { v: sse2::max_i32(self.v, rhs.v) };
        assert(r.lanes() =~= Seq::new(4, |i: int| lane::max_i32(self.lanes()[i], rhs.lanes()[i])));
        r
    }

    fn blendv(self, a: Self, b: Self) -> (r: Self) {
        let r = Sse2I32x4 { v: sse2::blendv_i32(a.v, b.v, self.v) };
        assert(r.lanes() =~= Seq::new(
            4,
            |i: int| if self.lanes()[i] == 0 { a.lanes()[i] } else { b.lanes()[i] },
        ));
        r
    }

    fn shl(self, rhs: i32) -> (r: Self) {
        let r = Sse2I32x4 { v: self.v.shl(rhs) };
        assert(r.lanes() =~= Seq::new(4, |i: int| lane::shl_i32(self.lanes()[i], rhs as u32)));
        r
    }

    fn shr(self, rhs: i32) -> (r: Self) {
        let r = Sse2I32x4 { v: self.v.shr(rhs) };
        assert(r.lanes() =~= Seq::new(4, |i: int| lane::shr_i32(self.lanes()[i], rhs as u32)));
        r
    }

    fn horizontal_add(self) -> (r: i64) {
        self.v.horizontal_add()
    }
}

/// A single 32-bit lane: the scalar backend, for targets without a vector extension.
#[derive(Clone, Copy)]
pub struct I32x1 {
    pub lane: i32,
}

impl SimdI32 for I32x1 {
    open spec fn lanes(&self) -> Seq<i32> {
        seq![self.lane]
    }

    open spec fn lane_count() -> nat {
        1
    }

    proof fn lemma_lane_count(v: Self) {
    }

    fn zeroes() -> (r: Self) {
        let r = I32x1 { lane: scalar::zeroes_i32() };
        assert(r.lanes() =~= Seq::new(1, |i: int| 0i32));
        r
    }

    fn set1(x: i32) -> (r: Self) {
        let r = I32x1 { lane: scalar::set1_i32(x) };
        assert(r.lanes() =~= Seq::new(1, |i: int| x));
        r
    }

    fn add(self, rhs: Self) -> (r: Self) {
        let r = I32x1 { lane: scalar::add_i32(self.lane, rhs.lane) };
        assert(r.lanes() =~= Seq::new(1, |i: int| self.lanes()[i].wrapping_add(rhs.lanes()[i])));
        r
    }

    fn sub(self, rhs: Self) -> (r: Self) {
        let r = I32x1 { lane: scalar::sub_i32(self.lane, rhs.lane) };
        assert(r.lanes() =~= Seq::new(1, |i: int| self.lanes()[i].wrapping_sub(rhs.lanes()[i])));
        r
    }

    fn mul(self, rhs: Self) -> (r: Self) {
        let r = I32x1 { lane: scalar::mul_i32(self.lane, rhs.lane) };
        assert(r.lanes() =~= Seq::new(1, |i: int| self.lanes()[i].wrapping_mul(rhs.lanes()[i])));
        r
    }

    fn bit_and(self, rhs: Self) -> (r: Self) {
        let r = I32x1 { lane: self.lane & rhs.lane };
        assert(r.lanes() =~= Seq::new(1, |i: int| self.lanes()[i] & rhs.lanes()[i]));
        r
    }

    fn bit_or(self, rhs: Self) -> (r: Self) {
        let r = I32x1 { lane: self.lane | rhs.lane };
        assert(r.lanes() =~= Seq::new(1, |i: int| self.lanes()[i] | rhs.lanes()[i]));
        r
    }

    fn bit_xor(self, rhs: Self) -> (r: Self) {
        let r = I32x1 { lane: self.lane ^ rhs.lane };
        assert(r.lanes() =~= Seq::new(1, |i: int| self.lanes()[i] ^ rhs.lanes()[i]));
        r
    }

    fn bit_not(self) -> (r: Self) {
        let r = I32x1 { lane: !self.lane };
        assert(r.lanes()[0] == lane::not_i32(self.lanes()[0]));
        assert(r.lanes() =~= Seq::new(1, |i: int| lane::not_i32(self.lanes()[i])));
        r
    }

    fn and_not(self, rhs: Self) -> (r: Self) {
        let r = I32x1 { lane: !self.lane & rhs.lane };
        assert(r.lanes() =~= Seq::new(1, |i: int| lane::not_i32(self.lanes()[i]) & rhs.lanes()[i]));
        r
    }

    fn abs(self) -> (r: Self) {
        let r = I32x1 { lane: scalar::abs_i32(self.lane) };
        assert(r.lanes() =~= Seq::new(1, |i: int| lane::abs_i32(self.lanes()[i])));
        r
    }

    fn cmp_eq(self, rhs: Self) -> (r: Self) {
        let r = I32x1 { lane: scalar::eq_i32(self.lane, rhs.lane) };
        assert(r.lanes() =~= Seq::new(
            1,
            |i: int| lane::mask_i32(self.lanes()[i] == rhs.lanes()[i]),
        ));
        r
    }

    fn cmp_neq(self, rhs: Self) -> (r: Self) {
        let r = I32x1 { lane: scalar::neq_i32(self.lane, rhs.lane) };
        assert(r.lanes() =~= Seq::new(
            1,
            |i: int| lane::mask_i32(self.lanes()[i] != rhs.lanes()[i]),
        ));
        r
    }

    fn cmp_lt(self, rhs: Self) -> (r: Self) {
        let r = I32x1 { lane: scalar::lt_i32(self.lane, rhs.lane) };
        assert(r.lanes() =~= Seq::new(
            1,
            |i: int| lane::mask_i32(self.lanes()[i] < rhs.lanes()[i]),
        ));
        r
    }

    fn cmp_lte(self, rhs: Self) -> (r: Self) {
        let r = I32x1 { lane: scalar::lte_i32(self.lane, rhs.lane) };
        assert(r.lanes() =~= Seq::new(
            1,
            |i: int| lane::mask_i32(self.lanes()[i] <= rhs.lanes()[i]),
        ));
        r
    }

    fn cmp_gt(self, rhs: Self) -> (r: Self) {
        let r = I32x1 { lane: scalar::gt_i32(self.lane, rhs.lane) };
        assert(r.lanes() =~= Seq::new(
            1,
            |i: int| lane::mask_i32(self.lanes()[i] > rhs.lanes()[i]),
        ));
        r
    }

    fn cmp_gte(self, rhs: Self) -> (r: Self) {
        let r = I32x1 { lane: scalar::gte_i32(self.lane, rhs.lane) };
        assert(r.lanes() =~= Seq::new(
            1,
            |i: int| lane::mask_i32(self.lanes()[i] >= rhs.lanes()[i]),
        ));
        r
    }

    fn min(self, rhs: Self) -> (r: Self) {
        let r = I32x1 { lane: scalar::min_i32(self.lane, rhs.lane) };
        assert(r.lanes() =~= Seq::new(1, |i: int| lane::min_i32(self.lanes()[i], rhs.lanes()[i])));
        r
    }

    fn max(self, rhs: Self) -> (r: Self) {
        let r = I32x1 { lane: scalar::max_i32(self.lane, rhs.lane) };
        assert(r.lanes() =~= Seq::new(1, |i: int| lane::max_i32(self.lanes()[i], rhs.lanes()[i])));
        r
    }

    fn blendv(self, a: Self, b: Self) -> (r: Self) {
        let r = I32x1 { lane: scalar::blendv_i32(a.lane, b.lane, self.lane) };
        assert(r.lanes() =~= Seq::new(
            1,
            |i: int| if self.lanes()[i] == 0 { a.lanes()[i] } else { b.lanes()[i] },
        ));
        r
    }

    fn shl(self, rhs: i32) -> (r: Self) {
        let r = I32x1 { lane: scalar::shl_i32(self.lane, rhs) };
        assert(r.lanes() =~= Seq::new(1, |i: int| lane::shl_i32(self.lanes()[i], rhs as u32)));
        r
    }

    fn shr(self, rhs: i32) -> (r: Self) {
        let r = I32x1 { lane: scalar::shr_i32(self.lane, rhs) };
        assert(r.lanes() =~= Seq::new(1, |i: int| lane::shr_i32(self.lanes()[i], rhs as u32)));
        r
    }

    fn horizontal_add(self) -> (r: i64) {
        let r = self.lane as i64;
        proof {
            reveal_with_fuel(lane::sum_of, 2);
        }
        r
    }
}

/// Eight 32-bit lanes held in two 128-bit registers, `lo` with lanes 0 to 3 and
/// `hi` with lanes 4 to 7: the widest backend, each operation done once per register.
#[derive(Clone, Copy)]
pub struct I32x8 {
    pub lo: I32x4,
    pub hi: I32x4,
}

impl SimdI32 for I32x8 {
    open spec fn lanes(&self) -> Seq<i32> {
        self.lo@ + self.hi@
    }

    open spec fn lane_count() -> nat {
        8
    }

    proof fn lemma_lane_count(v: Self) {
    }

    fn zeroes() -> (r: Self) {
        let r = I32x8 { lo: I32x4::zeroes(), hi: I32x4::zeroes() };
        assert(r.lanes() =~= Seq::new(8, |i: int| 0i32));
        r
    }

    fn set1(x: i32) -> (r: Self) {
        let r = I32x8 { lo: I32x4::set1(x), hi: I32x4::set1(x) };
        assert(r.lanes() =~= Seq::new(8, |i: int| x));
        r
    }

    fn add(self, rhs: Self) -> (r: Self) {
        let r = I32x8 { lo: self.lo.add(rhs.lo), hi: self.hi.add(rhs.hi) };
        assert(r.lanes() =~= Seq::new(8, |i: int| self.lanes()[i].wrapping_add(rhs.lanes()[i])));
        r
    }

    fn sub(self, rhs: Self) -> (r: Self) {
        let r = I32x8 { lo: self.lo.sub(rhs.lo), hi: self.hi.sub(rhs.hi) };
        assert(r.lanes() =~= Seq::new(8, |i: int| self.lanes()[i].wrapping_sub(rhs.lanes()[i])));
        r
    }

    fn mul(self, rhs: Self) -> (r: Self) {
        let r = I32x8 { lo: self.lo.mul(rhs.lo), hi: self.hi.mul(rhs.hi) };
        assert(r.lanes() =~= Seq::new(8, |i: int| self.lanes()[i].wrapping_mul(rhs.lanes()[i])));
        r
    }

    fn bit_and(self, rhs: Self) -> (r: Self) {
        let r = I32x8 { lo: self.lo.bit_and(rhs.lo), hi: self.hi.bit_and(rhs.hi) };
        assert(r.lanes() =~= Seq::new(8, |i: int| self.lanes()[i] & rhs.lanes()[i]));
        r
    }

    fn bit_or(self, rhs: Self) -> (r: Self) {
        let r = I32x8 { lo: self.lo.bit_or(rhs.lo), hi: self.hi.bit_or(rhs.hi) };
        assert(r.lanes() =~= Seq::new(8, |i: int| self.lanes()[i] | rhs.lanes()[i]));
        r
    }

    fn bit_xor(self, rhs: Self) -> (r: Self) {
        let r = I32x8 { lo: self.lo.bit_xor(rhs.lo), hi: self.hi.bit_xor(rhs.hi) };
        assert(r.lanes() =~= Seq::new(8, |i: int| self.lanes()[i] ^ rhs.lanes()[i]));
        r
    }

    fn bit_not(self) -> (r: Self) {
        let r = I32x8 { lo: self.lo.bit_not(), hi: self.hi.bit_not() };
        assert(r.lanes() =~= Seq::new(8, |i: int| lane::not_i32(self.lanes()[i])));
        r
    }

    fn and_not(self, rhs: Self) -> (r: Self) {
        let r = I32x8 { lo: self.lo.and_not(rhs.lo), hi: self.hi.and_not(rhs.hi) };
        assert(r.lanes() =~= Seq::new(8, |i: int| lane::not_i32(self.lanes()[i]) & rhs.lanes()[i]));
        r
    }

    fn abs(self) -> (r: Self) {
        let r = I32x8 { lo: self.lo.abs(), hi: self.hi.abs() };
        assert(r.lanes() =~= Seq::new(8, |i: int| lane::abs_i32(self.lanes()[i])));
        r
    }

    fn cmp_eq(self, rhs: Self) -> (r: Self) {
        let r = I32x8 { lo: self.lo.cmp_eq(rhs.lo), hi: self.hi.cmp_eq(rhs.hi) };
        assert(r.lanes() =~= Seq::new(
            8,
            |i: int| lane::mask_i32(self.lanes()[i] == rhs.lanes()[i]),
        ));
        r
    }

    fn cmp_neq(self, rhs: Self) -> (r: Self) {
        let r = I32x8 { lo: self.lo.cmp_neq(rhs.lo), hi: self.hi.cmp_neq(rhs.hi) };
        assert(r.lanes() =~= Seq::new(
            8,
            |i: int| lane::mask_i32(self.lanes()[i] != rhs.lanes()[i]),
        ));
        r
    }

    fn cmp_lt(self, rhs: Self) -> (r: Self) {
        let r = I32x8 { lo: self.lo.cmp_lt(rhs.lo), hi: self.hi.cmp_lt(rhs.hi) };
        assert(r.lanes() =~= Seq::new(
            8,
            |i: int| lane::mask_i32(self.lanes()[i] < rhs.lanes()[i]),
        ));
        r
    }

    fn cmp_lte(self, rhs: Self) -> (r: Self) {
        let r = I32x8 { lo: self.lo.cmp_lte(rhs.lo), hi: self.hi.cmp_lte(rhs.hi) };
        assert(r.lanes() =~= Seq::new(
            8,
            |i: int| lane::mask_i32(self.lanes()[i] <= rhs.lanes()[i]),
        ));
        r
    }

    fn cmp_gt(self, rhs: Self) -> (r: Self) {
        let r = I32x8 { lo: self.lo.cmp_gt(rhs.lo), hi: self.hi.cmp_gt(rhs.hi) };
        assert(r.lanes() =~= Seq::new(
            8,
            |i: int| lane::mask_i32(self.lanes()[i] > rhs.lanes()[i]),
        ));
        r
    }

    fn cmp_gte(self, rhs: Self) -> (r: Self) {
        let r = I32x8 { lo: self.lo.cmp_gte(rhs.lo), hi: self.hi.cmp_gte(rhs.hi) };
        assert(r.lanes() =~= Seq::new(
            8,
            |i: int| lane::mask_i32(self.lanes()[i] >= rhs.lanes()[i]),
        ));
        r
    }

    fn min(self, rhs: Self) -> (r: Self) {
        let r = I32x8 { lo: self.lo.min(rhs.lo), hi: self.hi.min(rhs.hi) };
        assert(r.lanes() =~= Seq::new(8, |i: int| lane::min_i32(self.lanes()[i], rhs.lanes()[i])));
        r
    }

    fn max(self, rhs: Self) -> (r: Self) {
        let r = I32x8 { lo: self.lo.max(rhs.lo), hi: self.hi.max(rhs.hi) };
        assert(r.lanes() =~= Seq::new(8, |i: int| lane::max_i32(self.lanes()[i], rhs.lanes()[i])));
        r
    }

    fn blendv(self, a: Self, b: Self) -> (r: Self) {
        let r = I32x8 { lo: self.lo.blendv(a.lo, b.lo), hi: self.hi.blendv(a.hi, b.hi) };
        assert(r.lanes() =~= Seq::new(
            8,
            |i: int| if self.lanes()[i] == 0 { a.lanes()[i] } else { b.lanes()[i] },
        ));
        r
    }

    fn shl(self, rhs: i32) -> (r: Self) {
        let r = I32x8 { lo: self.lo.shl(rhs), hi: self.hi.shl(rhs) };
        assert(r.lanes() =~= Seq::new(8, |i: int| lane::shl_i32(self.lanes()[i], rhs as u32)));
        r
    }

    fn shr(self, rhs: i32) -> (r: Self) {
        let r = I32x8 { lo: self.lo.shr(rhs), hi: self.hi.shr(rhs) };
        assert(r.lanes() =~= Seq::new(8, |i: int| lane::shr_i32(self.lanes()[i], rhs as u32)));
        r
    }

    fn horizontal_add(self) -> (r: i64) {
        let low = self.lo.horizontal_add();
        let high = self.hi.horizontal_add();
        proof {
            reveal_with_fuel(lane::sum_of, 9);
        }
        low + high
    }
}

/// A vector instruction set, or none: the types that carry each element type's lanes on
/// it.
pub trait Backend {
    /// 16-bit integer lanes on this backend.
    type I16: SimdI16;

    /// 32-bit integer lanes on this backend.
    type I32: SimdI32;
}

/// The widest extension: 256 bits of lanes per value.
pub struct Avx2;

/// The extension with 128-bit registers and full 32-bit lane arithmetic.
pub struct Sse41;

/// The narrower extension with 128-bit registers.
pub struct Sse2;

/// No vector extension: one lane per value.
pub struct Scalar;

impl Backend for Avx2 {
    type I16 = I16x16;

    type I32 = I32x8;
}

impl Backend for Sse41 {
    type I16 = I16x8;

    type I32 = I32x4;
}

impl Backend for Sse2 {
    type I16 = Sse2I16x8;

    type I32 = Sse2I32x4;
}

impl Backend for Scalar {
    type I16 = I16x1;

    type I32 = I32x1;
}

} // verus!
