use simdeez::f32x4::F32x4;
use simdeez::f64x2::F64x2;
use simdeez::i16x8::I16x8;
use simdeez::i32x4::I32x4;
use simdeez::i64x2::I64x2;
use simdeez::i8x16::I8x16;

const B: [i8; 16] = [0, -1, 1, -128, 127, 0x55, -0x56, 2, -2, 64, -64, 100, -100, 17, -17, 3];

#[test]
fn shl_of_all_ones_leaks_nothing_across_lanes() {
    for n in 0..8 {
        let r = I8x16::set1(-1).shl(n).underlying_value();
        assert_eq!(r, [((0xFFu8) << n) as i8; 16], "shl by {}", n);
        let r = I8x16::set1(-1).shr(n).underlying_value();
        assert_eq!(r, [((0xFFu8) >> n) as i8; 16], "shr by {}", n);
    }
}

#[test]
fn i8_shifts_match_per_byte_shifts() {
    for n in 0..8 {
        let l = I8x16::load_from_array(B).shl(n).underlying_value();
        let r = I8x16::load_from_array(B).shr(n).underlying_value();
        for i in 0..16 {
            assert_eq!(l[i], ((B[i] as u8) << n) as i8);
            assert_eq!(r[i], ((B[i] as u8) >> n) as i8);
        }
    }
}

#[test]
fn wider_shifts_are_logical() {
    assert_eq!(I16x8::set1(-1).shr(4).lane(0), 0x0FFF);
    assert_eq!(I16x8::set1(1).shl(15).lane(7), i16::MIN);
    assert_eq!(I32x4::set1(i32::MIN).shr(31).lane(1), 1);
    assert_eq!(I32x4::set1(3).shl_const::<30>().lane(2), i32::MIN + (1 << 30));
    assert_eq!(I32x4::set1(-1).shr_const::<28>().lane(3), 15);
    assert_eq!(I64x2::set1(-1).shr(60).lane(0), 15);
    assert_eq!(I64x2::set1(1).shl_const::<63>().lane(1), i64::MIN);
    assert_eq!(I16x8::set1(0x0101).shr_const::<8>().lane(5), 1);
    assert_eq!(I64x2::set1(-1).shr_const::<1>().lane(0), i64::MAX);
    assert_eq!(I16x8::set1(1).shl_const::<3>().lane(0), 8);
}

#[test]
fn widening_keeps_lane_order_and_sign() {
    let (lo, hi) = I8x16::load_from_array(B).extend_to_i16();
    let (ulo, uhi) = I8x16::load_from_array(B).unsigned_extend_to_i16();
    for k in 0..8 {
        assert_eq!(lo.lane(k), B[k] as i16);
        assert_eq!(hi.lane(k), B[k + 8] as i16);
        assert_eq!(ulo.lane(k), B[k] as u8 as i16);
        assert_eq!(uhi.lane(k), B[k + 8] as u8 as i16);
        // Narrowing back gives the lanes it started from.
        assert_eq!(lo.lane(k) as i8, B[k]);
        assert_eq!(uhi.lane(k) as i8, B[k + 8]);
    }
    let (lo, hi) = I16x8::load_from_array([-1, 2, i16::MIN, 4, 5, -6, 7, i16::MAX]).extend_to_i32();
    assert_eq!(lo.underlying_value(), [-1, 2, i16::MIN as i32, 4]);
    assert_eq!(hi.underlying_value(), [5, -6, 7, i16::MAX as i32]);
    let (lo, hi) = I16x8::load_from_array([-1, 2, i16::MIN, 4, 5, -6, 7, i16::MAX]).unsigned_extend_to_i32();
    assert_eq!(lo.underlying_value(), [65535, 2, 32768, 4]);
    assert_eq!(hi.underlying_value(), [5, 65530, 7, 32767]);
    let (lo, hi) = I32x4::load_from_array([-1, i32::MIN, 3, i32::MAX]).extend_to_i64();
    assert_eq!(lo.underlying_value(), [-1, i32::MIN as i64]);
    assert_eq!(hi.underlying_value(), [3, i32::MAX as i64]);
    let (lo, hi) = I32x4::load_from_array([-1, i32::MIN, 3, i32::MAX]).unsigned_extend_to_i64();
    assert_eq!(lo.underlying_value(), [u32::MAX as i64, 0x8000_0000]);
    assert_eq!(hi.underlying_value(), [3, i32::MAX as i64]);
}

#[test]
fn bitcasts_keep_every_bit() {
    let v = I32x4::load_from_array([0, -1, i32::MIN, 0x3F80_0000]);
    let f = v.bitcast_f32();
    assert_eq!(f.underlying_value(), [0, u32::MAX, 0x8000_0000, 1.0f32.to_bits()]);
    assert_eq!(f.bitcast_i32().underlying_value(), v.underlying_value());
    let w = F32x4::from_underlying_value([f32::NAN.to_bits(), (-0.0f32).to_bits(), 7, u32::MAX]);
    assert_eq!(w.bitcast_i32().bitcast_f32().underlying_value(), w.underlying_value());
    let v = I64x2::load_from_array([i64::MIN, -2]);
    assert_eq!(v.bitcast_f64().bitcast_i64().underlying_value(), v.underlying_value());
    let w = F64x2::from_underlying_value([(-2.5f64).to_bits(), 1]);
    assert_eq!(w.bitcast_i64().bitcast_f64().underlying_value(), w.underlying_value());
    assert_eq!(w.abs().lane_bits(0), 2.5f64.to_bits());
}

#[test]
fn store_then_load_round_trips() {
    let v = I8x16::load_from_array(B);
    let mut buf = [9i8; 20];
    v.copy_to_slice(&mut buf[3..]);
    assert_eq!(&buf[..3], &[9, 9, 9]);
    assert_eq!(I8x16::load_from_slice(&buf[3..]).underlying_value(), B);
    assert_eq!(&buf[19..], &[9]);
    let v = I64x2::load_from_array([i64::MIN, i64::MAX]);
    let mut buf = [0i64; 2];
    v.copy_to_slice(&mut buf);
    assert_eq!(I64x2::load_from_slice(&buf).underlying_value(), v.underlying_value());
    let mut v = I16x8::zeroes();
    v.underlying_value_mut()[3] = 42;
    assert_eq!(v.lane(3), 42);
    assert_eq!(I16x8::from_underlying_value([1; 8]).underlying_value(), [1; 8]);
}
