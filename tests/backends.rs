use simdeez::dispatch::{Avx2, Backend, I16x1, I16x16, I32x1, I32x8, Scalar, SimdI16, SimdI32, Sse2, Sse2I16x8, Sse2I32x4, Sse41};
use simdeez::i16x8::I16x8;
use simdeez::i32x4::I32x4;
use simdeez::scalar;
use simdeez::sse2;

const S: [i32; 8] = [0, -1, 1, i32::MIN, i32::MAX, 0x5555_5555, -0x5555_5556, 12345];

fn apply_all<V: SimdI32>(a: V, b: V) -> Vec<V> {
    vec![
        a.add(b), a.sub(b), a.mul(b), a.bit_and(b), a.bit_or(b), a.bit_xor(b), a.bit_not(),
        a.and_not(b), a.abs(), a.cmp_eq(b), a.cmp_neq(b), a.cmp_lt(b), a.cmp_lte(b),
        a.cmp_gt(b), a.cmp_gte(b), a.min(b), a.max(b), a.shl(5), a.shr(5),
        a.cmp_gt(b).blendv(a, b),
    ]
}

fn scalar_lanes(a: i32, b: i32) -> Vec<i32> {
    apply_all(I32x1 { lane: a }, I32x1 { lane: b }).iter().map(|v| v.lane).collect()
}

#[test]
fn every_backend_matches_the_scalar_reference() {
    for &x in S.iter() {
        for &y in S.iter() {
            let want = scalar_lanes(x, y);
            let a4 = I32x4::load_from_array([x, y, x, y]);
            let b4 = I32x4::load_from_array([y, x, y, x]);
            let sse41 = apply_all(a4, b4);
            let sse2 = apply_all(Sse2I32x4 { v: a4 }, Sse2I32x4 { v: b4 });
            let avx2 = apply_all(I32x8 { lo: a4, hi: b4 }, I32x8 { lo: b4, hi: a4 });
            for op in 0..want.len() {
                assert_eq!(sse41[op].lane(0), want[op], "op {} on {} {}", op, x, y);
                assert_eq!(sse2[op].v.lane(2), want[op], "op {} on {} {}", op, x, y);
                assert_eq!(avx2[op].lo.lane(0), want[op], "op {} on {} {}", op, x, y);
                assert_eq!(avx2[op].hi.lane(1), want[op], "op {} on {} {}", op, x, y);
            }
        }
    }
}

fn sum_of<B: Backend>(v: B::I32) -> i64 {
    v.horizontal_add()
}

#[test]
fn backends_are_chosen_by_type() {
    assert_eq!(sum_of::<Sse41>(<Sse41 as Backend>::I32::set1(i32::MAX)), 4 * i32::MAX as i64);
    assert_eq!(sum_of::<Sse2>(<Sse2 as Backend>::I32::set1(-3)), -12);
    assert_eq!(sum_of::<Avx2>(<Avx2 as Backend>::I32::set1(i32::MIN)), 8 * i32::MIN as i64);
    assert_eq!(sum_of::<Scalar>(<Scalar as Backend>::I32::set1(7)), 7);
    assert_eq!(<Avx2 as Backend>::I32::zeroes().horizontal_add(), 0);
}

#[test]
fn narrower_extension_fallbacks() {
    let a = I32x4::load_from_array([i32::MIN, -1, 7, i32::MAX]);
    let b = I32x4::load_from_array([0, -1, 8, i32::MIN]);
    assert_eq!(sse2::min_i32(a, b).underlying_value(), [i32::MIN, -1, 7, i32::MIN]);
    assert_eq!(sse2::max_i32(a, b).underlying_value(), [0, -1, 8, i32::MAX]);
    assert_eq!(sse2::abs_i32(a).underlying_value(), [i32::MIN, 1, 7, i32::MAX]);
    assert_eq!(sse2::mul_i32(a, b).underlying_value(), [0, 1, 56, i32::MIN]);
    assert_eq!(sse2::lt_i32(a, b).underlying_value(), [-1, 0, -1, 0]);
    assert_eq!(sse2::lte_i32(a, b).underlying_value(), [-1, -1, -1, 0]);
    assert_eq!(sse2::gte_i32(a, b).underlying_value(), [0, -1, 0, -1]);
    assert_eq!(sse2::neq_i32(a, b).underlying_value(), [-1, 0, -1, -1]);
    // Bitwise selection, lane for lane, on a hand-made mask.
    let m = I32x4::load_from_array([0x0000_FFFF, 0, -1, 0x0F0F_0F0F]);
    let r = sse2::blendv_i32(I32x4::set1(0x1234_5678), I32x4::set1(-0x1234_5679), m);
    assert_eq!(r.underlying_value(), [0x1234_A987, 0x1234_5678, -0x1234_5679, 0x1D3B_5977]);
}

#[test]
fn scalar_backend_ops() {
    assert_eq!(scalar::add_i16(i16::MAX, 1), i16::MIN);
    assert_eq!(scalar::sub_i32(i32::MIN, 1), i32::MAX);
    assert_eq!(scalar::mul_i16(300, 300), (90000i32 as i16));
    assert_eq!(scalar::abs_i16(i16::MIN), i16::MIN);
    assert_eq!(scalar::abs_i32(-4), 4);
    assert_eq!(scalar::eq_i16(3, 3), -1);
    assert_eq!(scalar::gte_i16(2, 3), 0);
    assert_eq!(scalar::lte_i32(2, 3), -1);
    assert_eq!(scalar::blendv_i16(1, 2, 0), 1);
    assert_eq!(scalar::blendv_i32(1, 2, -1), 2);
    assert_eq!(scalar::shr_i16(-1, 15), 1);
    assert_eq!(scalar::shl_const_i16::<15>(1), i16::MIN);
    assert_eq!(scalar::shr_const_i32::<31>(-1), 1);
    assert_eq!(scalar::extend_i16(-5), (-5, 0));
    assert_eq!(scalar::unsigned_extend_i16(-1), (65535, 0));
    assert_eq!(scalar::unsigned_extend_i32(-1), (u32::MAX as i64, 0));
    assert_eq!(scalar::bitcast_binary_from_i32(-1), u64::MAX);
    assert_eq!(scalar::bitcast_i32_from_binary(scalar::bitcast_binary_from_i32(i32::MIN)), i32::MIN);
    assert_eq!(scalar::bitcast_i64_from_binary(scalar::bitcast_binary_from_i64(-7)), -7);
    assert_eq!(scalar::set1_i16(9), 9);
    assert_eq!(scalar::zeroes_i32(), 0);
}

const S16: [i16; 8] = [0, -1, 1, i16::MIN, i16::MAX, 0x5555, -0x5556, 300];

fn apply_all_16<V: SimdI16>(a: V, b: V) -> Vec<V> {
    vec![
        a.add(b), a.sub(b), a.mul(b), a.bit_and(b), a.bit_or(b), a.bit_xor(b), a.bit_not(),
        a.and_not(b), a.abs(), a.cmp_eq(b), a.cmp_neq(b), a.cmp_lt(b), a.cmp_lte(b),
        a.cmp_gt(b), a.cmp_gte(b), a.min(b), a.max(b), a.shl(3), a.shr(3),
        a.cmp_lt(b).blendv(a, b),
    ]
}

#[test]
fn every_16_bit_backend_matches_the_scalar_reference() {
    for &x in S16.iter() {
        for &y in S16.iter() {
            let want: Vec<i16> = apply_all_16(I16x1 { lane: x }, I16x1 { lane: y }).iter().map(|v| v.lane).collect();
            let a8 = I16x8::load_from_array([x, y, x, y, x, y, x, y]);
            let b8 = I16x8::load_from_array([y, x, y, x, y, x, y, x]);
            let sse41 = apply_all_16(a8, b8);
            let sse2 = apply_all_16(Sse2I16x8 { v: a8 }, Sse2I16x8 { v: b8 });
            let avx2 = apply_all_16(I16x16 { lo: a8, hi: b8 }, I16x16 { lo: b8, hi: a8 });
            for op in 0..want.len() {
                assert_eq!(sse41[op].lane(4), want[op], "op {} on {} {}", op, x, y);
                assert_eq!(sse2[op].v.lane(6), want[op], "op {} on {} {}", op, x, y);
                assert_eq!(avx2[op].lo.lane(2), want[op], "op {} on {} {}", op, x, y);
                assert_eq!(avx2[op].hi.lane(7), want[op], "op {} on {} {}", op, x, y);
            }
        }
    }
}

fn sum16<B: Backend>(v: B::I16) -> i64 {
    v.horizontal_add()
}

#[test]
fn sixteen_bit_backends_sum_without_wrapping() {
    assert_eq!(sum16::<Avx2>(<Avx2 as Backend>::I16::set1(i16::MIN)), 16 * i16::MIN as i64);
    assert_eq!(sum16::<Sse41>(<Sse41 as Backend>::I16::set1(i16::MAX)), 8 * i16::MAX as i64);
    assert_eq!(sum16::<Sse2>(<Sse2 as Backend>::I16::set1(-2)), -16);
    assert_eq!(sum16::<Scalar>(<Scalar as Backend>::I16::set1(-2)), -2);
}

#[test]
fn narrower_extension_16_bit_fallbacks() {
    let a = I16x8::load_from_array([i16::MIN, -1, 7, i16::MAX, 0, 5, -5, 2]);
    let b = I16x8::load_from_array([0, -1, 8, i16::MIN, 0, 4, -4, 3]);
    assert_eq!(sse2::abs_i16(a).underlying_value(), [i16::MIN, 1, 7, i16::MAX, 0, 5, 5, 2]);
    assert_eq!(sse2::lt_i16(a, b).underlying_value(), [-1, 0, -1, 0, 0, 0, -1, -1]);
    assert_eq!(sse2::lte_i16(a, b).underlying_value(), [-1, -1, -1, 0, -1, 0, -1, -1]);
    assert_eq!(sse2::gte_i16(a, b).underlying_value(), [0, -1, 0, -1, -1, -1, 0, 0]);
    assert_eq!(sse2::neq_i16(a, b).underlying_value(), [-1, 0, -1, -1, 0, -1, -1, -1]);
    let m = sse2::lt_i16(a, b);
    assert_eq!(sse2::blendv_i16(a, b, m).underlying_value(), [0, -1, 8, i16::MAX, 0, 5, -4, 3]);
}
