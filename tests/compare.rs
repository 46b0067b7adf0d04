use simdeez::f32x4::F32x4;
use simdeez::i16x8::I16x8;
use simdeez::i32x4::I32x4;
use simdeez::i64x2::I64x2;
use simdeez::i8x16::I8x16;

const S: [i32; 8] = [0, -1, 1, i32::MIN, i32::MAX, 0x5555_5555, -0x5555_5556, 7];

fn mask(c: bool) -> i32 {
    if c { -1 } else { 0 }
}

#[test]
fn comparisons_give_whole_lane_masks() {
    for &x in S.iter() {
        let a = I32x4::load_from_array([S[0], S[3], S[4], S[5]]);
        let b = I32x4::set1(x);
        let got = [
            a.cmp_eq(b).underlying_value(),
            a.cmp_neq(b).underlying_value(),
            a.cmp_lt(b).underlying_value(),
            a.cmp_lte(b).underlying_value(),
            a.cmp_gt(b).underlying_value(),
            a.cmp_gte(b).underlying_value(),
        ];
        let av = a.underlying_value();
        for i in 0..4 {
            assert_eq!(got[0][i], mask(av[i] == x));
            assert_eq!(got[1][i], mask(av[i] != x));
            assert_eq!(got[2][i], mask(av[i] < x));
            assert_eq!(got[3][i], mask(av[i] <= x));
            assert_eq!(got[4][i], mask(av[i] > x));
            assert_eq!(got[5][i], mask(av[i] >= x));
            for g in got.iter() {
                assert!(g[i] as u32 == 0 || g[i] as u32 == 0xFFFF_FFFF);
            }
        }
    }
}

#[test]
fn i64_comparisons_at_the_extremes() {
    let a = I64x2::load_from_array([i64::MIN, i64::MAX]);
    let b = I64x2::load_from_array([i64::MAX, i64::MAX]);
    assert_eq!(a.cmp_lt(b).underlying_value(), [-1, 0]);
    assert_eq!(a.cmp_lte(b).underlying_value(), [-1, -1]);
    assert_eq!(a.cmp_gt(b).underlying_value(), [0, 0]);
    assert_eq!(a.cmp_gte(b).underlying_value(), [0, -1]);
    assert_eq!(a.cmp_eq(b).underlying_value(), [0, -1]);
    assert_eq!(a.cmp_neq(b).underlying_value(), [-1, 0]);
}

#[test]
fn derived_comparisons_agree_with_primitive_ones() {
    let a = I8x16::load_from_array([0, -1, 1, -128, 127, 85, -86, 2, -2, 64, -64, 100, -100, 17, -17, 3]);
    let b = I8x16::load_from_array([0, 1, -1, 127, -128, 85, 86, 3, -3, 64, 64, -100, 100, 18, -18, 3]);
    assert_eq!(a.cmp_lte(b).underlying_value(), a.cmp_gt(b).bit_not().underlying_value());
    assert_eq!(a.cmp_gte(b).underlying_value(), a.cmp_gt(b).bit_or(a.cmp_eq(b)).underlying_value());
    let a = I16x8::load_from_array([0, -1, 1, i16::MIN, i16::MAX, 5, -5, 9]);
    let b = I16x8::load_from_array([1, -1, 0, i16::MAX, i16::MIN, 5, 5, -9]);
    assert_eq!(a.cmp_lte(b).underlying_value(), a.cmp_gt(b).bit_not().underlying_value());
    assert_eq!(a.cmp_gte(b).underlying_value(), a.cmp_gt(b).bit_or(a.cmp_eq(b)).underlying_value());
    let a = I64x2::load_from_array([i64::MIN, 4]);
    let b = I64x2::load_from_array([i64::MIN, -4]);
    assert_eq!(a.cmp_lte(b).underlying_value(), a.cmp_gt(b).bit_not().underlying_value());
    assert_eq!(a.cmp_gte(b).underlying_value(), a.cmp_gt(b).bit_or(a.cmp_eq(b)).underlying_value());
}

#[test]
fn blendv_takes_second_operand_where_mask_is_set() {
    let m = I32x4::load_from_array([1, 5, 3, 8]).cmp_gt(I32x4::set1(2));
    let r = m.blendv(I32x4::set1(10), I32x4::set1(20));
    assert_eq!(r.underlying_value(), [10, 20, 20, 20]);
    let m = I16x8::load_from_array([-1, 0, -1, 0, 0, 0, -1, -1]);
    let r = m.blendv(I16x8::set1(1), I16x8::set1(2));
    assert_eq!(r.underlying_value(), [2, 1, 2, 1, 1, 1, 2, 2]);
    let m = I8x16::set1(7).cmp_eq(I8x16::load_from_array([7, 0, 7, 0, 7, 0, 7, 0, 7, 0, 7, 0, 7, 0, 7, 0]));
    let r = m.blendv(I8x16::set1(-1), I8x16::set1(9));
    assert_eq!(r.underlying_value(), [9, -1, 9, -1, 9, -1, 9, -1, 9, -1, 9, -1, 9, -1, 9, -1]);
    let m = I64x2::load_from_array([0, -1]);
    let r = m.blendv(I64x2::set1(i64::MIN), I64x2::set1(i64::MAX));
    assert_eq!(r.underlying_value(), [i64::MIN, i64::MAX]);
}

#[test]
fn get_mask_collects_sign_bits() {
    let v = I8x16::load_from_array([-1, 0, -128, 127, 0, 0, 0, 0, 0, 0, 0, 0, 0, 0, 0, -5]);
    assert_eq!(v.get_mask(), 0b1000_0000_0000_0101);
    assert_eq!(I8x16::set1(-1).get_mask(), 0xFFFF);
    assert_eq!(I8x16::zeroes().get_mask(), 0);
}

#[test]
fn float_bit_logic() {
    let v = F32x4::from_underlying_value([(-1.5f32).to_bits(), 2.0f32.to_bits(), (-0.0f32).to_bits(), f32::NEG_INFINITY.to_bits()]);
    let a = v.abs().underlying_value();
    assert_eq!(a, [1.5f32.to_bits(), 2.0f32.to_bits(), 0.0f32.to_bits(), f32::INFINITY.to_bits()]);
    assert_eq!(v.bit_not().bit_not().underlying_value(), v.underlying_value());
    assert_eq!(v.bit_xor(v).underlying_value(), [0; 4]);
    let mask = F32x4::from_underlying_value([0xFFFF_FFFF, 0, 0x8000_0000, 0x7FFF_FFFF]);
    let r = mask.blendv(F32x4::set1_bits(1.0f32.to_bits()), F32x4::set1_bits(3.0f32.to_bits()));
    assert_eq!(r.underlying_value(), [3.0f32.to_bits(), 1.0f32.to_bits(), 3.0f32.to_bits(), 1.0f32.to_bits()]);
}
