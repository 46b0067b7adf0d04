use simdeez::i16x8::I16x8;
use simdeez::i32x4::I32x4;
use simdeez::i64x2::I64x2;
use simdeez::i8x16::I8x16;

const I8_SAMPLES: [i8; 16] = [0, -1, 1, -128, 127, 0x55, -0x56, 2, -2, 64, -64, 100, -100, 17, -17, 3];
const I32_SAMPLES: [i32; 8] = [0, -1, 1, i32::MIN, i32::MAX, 0x5555_5555, -0x5555_5556, 12345];

#[test]
fn add_wraps_instead_of_saturating() {
    let r = I8x16::set1(127).add(I8x16::set1(1));
    assert_eq!(r.underlying_value(), [-128i8; 16]);
    let r = I16x8::set1(i16::MAX).add(I16x8::set1(1));
    assert_eq!(r.underlying_value(), [i16::MIN; 8]);
    let r = I32x4::set1(i32::MAX).add(I32x4::set1(1));
    assert_eq!(r.underlying_value(), [i32::MIN; 4]);
    let r = I64x2::set1(i64::MAX).add(I64x2::set1(1));
    assert_eq!(r.underlying_value(), [i64::MIN; 2]);
}

#[test]
fn sub_and_mul_wrap() {
    let r = I8x16::set1(-128).sub(I8x16::set1(1));
    assert_eq!(r.lane(0), 127);
    let r = I8x16::set1(16).mul(I8x16::set1(16));
    assert_eq!(r.lane(5), 0);
    let r = I8x16::set1(15).mul(I8x16::set1(-9));
    assert_eq!(r.lane(7), (15i8).wrapping_mul(-9));
    let r = I32x4::set1(0x10000).mul(I32x4::set1(0x10000));
    assert_eq!(r.lane(2), 0);
    let r = I64x2::set1(i64::MAX).mul(I64x2::set1(2));
    assert_eq!(r.lane(1), -2);
}

#[test]
fn i8_lanes_match_native_wrapping_ops() {
    for &x in I8_SAMPLES.iter() {
        let a = I8x16::load_from_array(I8_SAMPLES);
        let b = I8x16::set1(x);
        let add = a.add(b).underlying_value();
        let sub = a.sub(b).underlying_value();
        let mul = a.mul(b).underlying_value();
        let min = a.min(b).underlying_value();
        let max = a.max(b).underlying_value();
        for i in 0..16 {
            assert_eq!(add[i], I8_SAMPLES[i].wrapping_add(x));
            assert_eq!(sub[i], I8_SAMPLES[i].wrapping_sub(x));
            assert_eq!(mul[i], I8_SAMPLES[i].wrapping_mul(x));
            assert_eq!(min[i], I8_SAMPLES[i].min(x));
            assert_eq!(max[i], I8_SAMPLES[i].max(x));
        }
    }
}

#[test]
fn abs_keeps_the_minimum_value() {
    let r = I8x16::load_from_array([-128, -1, 0, 1, 127, -127, 5, -5, 0, 0, 0, 0, 0, 0, 0, 0]).abs();
    assert_eq!(r.underlying_value(), [-128, 1, 0, 1, 127, 127, 5, 5, 0, 0, 0, 0, 0, 0, 0, 0]);
    let r = I16x8::load_from_array([i16::MIN, -7, 7, 0, i16::MAX, -1, 1, -300]).abs();
    assert_eq!(r.underlying_value(), [i16::MIN, 7, 7, 0, i16::MAX, 1, 1, 300]);
    let r = I32x4::load_from_array([i32::MIN, -5, 5, 0]).abs();
    assert_eq!(r.underlying_value(), [i32::MIN, 5, 5, 0]);
    let r = I64x2::load_from_array([i64::MIN, -9]).abs();
    assert_eq!(r.underlying_value(), [i64::MIN, 9]);
}

#[test]
fn bit_logic_per_lane() {
    let a = I32x4::load_from_array([0x0F0F_0F0F, -1, 0, 0x1234_5678]);
    let b = I32x4::load_from_array([0x00FF_00FF, 0x5555_5555, -1, -0x1234_5679]);
    assert_eq!(a.bit_and(b).underlying_value(), [0x000F_000F, 0x5555_5555, 0, 0]);
    assert_eq!(a.bit_or(b).underlying_value(), [0x0FFF_0FFF, -1, -1, -1]);
    assert_eq!(a.bit_xor(b).underlying_value(), [0x0FF0_0FF0, !0x5555_5555, -1, -1]);
    assert_eq!(a.bit_not().underlying_value(), [!0x0F0F_0F0F, 0, -1, !0x1234_5678]);
    // and_not keeps the operand order: (!a) & b.
    assert_eq!(a.and_not(b).underlying_value(), [0x00F0_00F0, 0, -1, -0x1234_5679]);
    assert_eq!(b.and_not(a).underlying_value(), [0x0F00_0F00, !0x5555_5555, 0, 0x1234_5678]);
}

#[test]
fn min_and_max_at_the_extremes() {
    let a = I64x2::load_from_array([i64::MIN, i64::MAX]);
    let b = I64x2::load_from_array([0, -1]);
    assert_eq!(a.min(b).underlying_value(), [i64::MIN, -1]);
    assert_eq!(a.max(b).underlying_value(), [0, i64::MAX]);
    let a = I32x4::load_from_array(I32_SAMPLES[0..4].try_into().unwrap());
    let b = I32x4::load_from_array(I32_SAMPLES[4..8].try_into().unwrap());
    let (mn, mx) = (a.min(b).underlying_value(), a.max(b).underlying_value());
    for i in 0..4 {
        assert_eq!(mn[i], I32_SAMPLES[i].min(I32_SAMPLES[i + 4]));
        assert_eq!(mx[i], I32_SAMPLES[i].max(I32_SAMPLES[i + 4]));
    }
}

#[test]
fn broadcast_multiply_then_sum() {
    let v = I32x4::set1(5).mul(I32x4::load_from_array([1, -1, 2, 0]));
    assert_eq!(v.underlying_value(), [5, -5, 10, 0]);
    assert_eq!(v.horizontal_add(), 10);
}

#[test]
fn horizontal_sums() {
    assert_eq!(I8x16::set1(-128).horizontal_add(), -2048);
    assert_eq!(I8x16::set1(-1).horizontal_unsigned_add(), 16 * 255);
    assert_eq!(I8x16::load_from_array(I8_SAMPLES).horizontal_add(), I8_SAMPLES.iter().map(|&x| x as i64).sum::<i64>());
    assert_eq!(I16x8::set1(i16::MIN).horizontal_add(), 8 * i16::MIN as i64);
    assert_eq!(I16x8::set1(-1).horizontal_unsigned_add(), 8 * 65535);
    assert_eq!(I32x4::set1(i32::MAX).horizontal_add(), 4 * i32::MAX as i64);
    assert_eq!(I32x4::set1(-1).horizontal_unsigned_add(), 4 * u32::MAX as i64);
    assert_eq!(I64x2::load_from_array([i64::MAX, 1]).horizontal_add(), i64::MIN);
    assert_eq!(I64x2::load_from_array([-1, 3]).horizontal_unsigned_add(), 2);
}

#[test]
fn partial_horizontal_adds_pair_lane_k_with_the_second_half() {
    let v = I8x16::load_from_array([1, 2, 3, 4, 5, 6, 7, 8, 10, 20, 30, 40, 50, 60, 70, -128]);
    assert_eq!(v.partial_horizontal_add().underlying_value(), [11, 22, 33, 44, 55, 66, 77, -120]);
    assert_eq!(v.partial_horizontal_unsigned_add().underlying_value(), [11, 22, 33, 44, 55, 66, 77, 136]);
    let v = I16x8::load_from_array([1, 2, 3, 4, -1, -2, -3, -4]);
    assert_eq!(v.partial_horizontal_add().underlying_value(), [0, 0, 0, 0]);
    assert_eq!(v.partial_horizontal_unsigned_add().underlying_value(), [65536, 65536, 65536, 65536]);
    let v = I32x4::load_from_array([i32::MAX, -1, i32::MAX, -1]);
    assert_eq!(v.partial_horizontal_add().underlying_value(), [2 * i32::MAX as i64, -2]);
    assert_eq!(v.partial_horizontal_unsigned_add().underlying_value(), [2 * i32::MAX as i64, 2 * u32::MAX as i64]);
    assert_eq!(I64x2::load_from_array([i64::MIN, -1]).partial_horizontal_add(), i64::MAX);
}
