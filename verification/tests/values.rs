use cellular3::colors::{get_average, get_hue_unfloat, BitColor, ByteColor, FloatColor, NibbleColor};
use cellular3::continuous::{map_range, Angle, SNFloat, UNFloat, SN_ONE, TURN, UN_ONE};
use cellular3::discrete::{Byte, Nibble, SInt, UInt};
use cellular3::trig::{atan2_units, cosine, isqrt, sine, HALF_TURN, QUARTER_TURN};

#[test]
fn continuous_test_angles() {
    for i in 0..100_000 {
        let a = Angle::new(i as i64);
        assert!(0 <= a.into_inner() && a.into_inner() < TURN);
    }
}

#[test]
fn datatypes_test_angles() {
    for i in 0..100_000 {
        let a = Angle::new(i as i64);
        assert!(0 <= a.into_inner() && a.into_inner() < TURN);
    }
}

#[test]
fn negative_angles_normalise() {
    for i in 0..1_000 {
        let a = Angle::new(-(i as i64) * 7);
        assert!(0 <= a.into_inner() && a.into_inner() < TURN);
    }
}

#[test]
fn angle_normalises_by_modulus() {
    assert_eq!(Angle::new(TURN as i64).into_inner(), 0);
    assert_eq!(Angle::new(TURN as i64 + 5).into_inner(), 5);
    assert_eq!(Angle::new(-1).into_inner(), TURN - 1);
}

#[test]
fn conversion_round_trip() {
    for v in [-SN_ONE, -12345, -1, 0, 1, 777, SN_ONE] {
        let s = SNFloat::new(v);
        let back = s.to_unsigned().to_signed();
        assert_eq!(back.into_inner(), v);
    }
    for v in [0, 1, 65536, 131071, UN_ONE] {
        let u = UNFloat::new(v);
        let back = u.to_signed().to_unsigned();
        assert_eq!(back.into_inner(), v);
    }
}

#[test]
fn range_invariants_under_operators() {
    let vals = [-SN_ONE, -40000, 0, 39999, SN_ONE];
    for &a in &vals {
        for &b in &vals {
            let r = SNFloat::new(a).multiply(SNFloat::new(b));
            assert!(-SN_ONE <= r.into_inner() && r.into_inner() <= SN_ONE);
            let c = SNFloat::new(a).circular_add(SNFloat::new(b));
            assert!(-SN_ONE <= c.into_inner() && c.into_inner() <= SN_ONE);
        }
    }
    for &a in &[0, 1, 70000, UN_ONE] {
        for &b in &[0, 3, UN_ONE] {
            let r = UNFloat::new(a).multiply(UNFloat::new(b));
            assert!(0 <= r.into_inner() && r.into_inner() <= UN_ONE);
            let s = UNFloat::new(a).subdivide(Nibble::new(7));
            assert!(0 <= s.into_inner() && s.into_inner() <= UN_ONE);
            let c = UNFloat::new(a).circular_add(UNFloat::new(b));
            assert!(0 <= c.into_inner() && c.into_inner() <= UN_ONE);
        }
    }
}

#[test]
fn byte_wrapping_arithmetic() {
    assert_eq!(Byte::new(200).add(Byte::new(100)).into_inner(), 44);
    assert_eq!(Byte::new(255).add(Byte::new(1)).into_inner(), 0);
    assert_eq!(Byte::new(16).multiply(Byte::new(16)).into_inner(), 0);
    assert_eq!(Byte::new(13).multiply(Byte::new(20)).into_inner(), 4);
    assert_eq!(Byte::new(77).divide(Byte::new(0)).into_inner(), 0);
    assert_eq!(Byte::new(77).modulus(Byte::new(0)).into_inner(), 0);
    assert_eq!(Byte::new(77).divide(Byte::new(10)).into_inner(), 7);
    assert_eq!(Byte::new(77).modulus(Byte::new(10)).into_inner(), 7);
}

#[test]
fn nibble_and_wide_wrapping() {
    assert_eq!(Nibble::new(20).into_inner(), 4);
    assert_eq!(Nibble::new(9).add(Nibble::new(9)).into_inner(), 2);
    assert_eq!(Nibble::new(5).multiply(Nibble::new(7)).into_inner(), 3);
    assert_eq!(Nibble::new(5).divide(Nibble::new(0)).into_inner(), 0);
    assert_eq!(UInt::new(u32::MAX).add(UInt::new(2)).into_inner(), 1);
    assert_eq!(UInt::new(9).divide(UInt::new(0)).into_inner(), 0);
    assert_eq!(SInt::new(i32::MIN).divide(SInt::new(-1)).into_inner(), i32::MIN);
    assert_eq!(SInt::new(i32::MIN).modulus(SInt::new(-1)).into_inner(), 0);
    assert_eq!(SInt::new(-7).divide(SInt::new(2)).into_inner(), -3);
    assert_eq!(SInt::new(-7).modulus(SInt::new(2)).into_inner(), -1);
}

#[test]
fn map_range_exact() {
    assert_eq!(map_range(5, 0, 10, 0, 100), 50);
    assert_eq!(map_range(0, -10, 10, 0, 20), 10);
    assert_eq!(map_range(3, 3, 7, -8, 8), -8);
    assert_eq!(map_range(7, 3, 7, -8, 8), 8);
}

#[test]
fn sine_anchor_points() {
    assert_eq!(sine(Angle::new(0)).into_inner(), 0);
    assert_eq!(sine(Angle::new(QUARTER_TURN as i64)).into_inner(), SN_ONE);
    assert_eq!(sine(Angle::new(HALF_TURN as i64)).into_inner(), 0);
    assert_eq!(
        sine(Angle::new((HALF_TURN + QUARTER_TURN) as i64)).into_inner(),
        -SN_ONE
    );
    assert_eq!(cosine(Angle::new(0)).into_inner(), SN_ONE);
    assert_eq!(cosine(Angle::new(HALF_TURN as i64)).into_inner(), -SN_ONE);
}

#[test]
fn isqrt_exact() {
    assert_eq!(isqrt(0), 0);
    assert_eq!(isqrt(15), 3);
    assert_eq!(isqrt(16), 4);
    assert_eq!(isqrt(1_000_000), 1000);
    assert_eq!(isqrt(u64::MAX), 0xFFFF_FFFF);
}

#[test]
fn atan2_axes() {
    assert_eq!(atan2_units(0, 100), 0);
    assert_eq!(atan2_units(100, 0), QUARTER_TURN);
    assert_eq!(atan2_units(0, -100), HALF_TURN);
    assert_eq!(atan2_units(-100, 0), HALF_TURN + QUARTER_TURN);
    assert_eq!(atan2_units(0, 0), 0);
}

fn grey(v: i32) -> FloatColor {
    FloatColor {
        r: UNFloat::new(v),
        g: UNFloat::new(v),
        b: UNFloat::new(v),
        a: UNFloat::new(UN_ONE),
    }
}

#[test]
fn hue_and_average() {
    let green = FloatColor {
        r: UNFloat::new(0),
        g: UNFloat::new(UN_ONE),
        b: UNFloat::new(0),
        a: UNFloat::new(UN_ONE),
    };
    assert_eq!(get_hue_unfloat(green).into_inner(), 2 * UN_ONE / 6);
    assert_eq!(get_hue_unfloat(grey(55)).into_inner(), 0);
    assert_eq!(get_average(grey(900)).into_inner(), 900);
}

#[test]
fn bit_color_algebra() {
    assert_eq!(BitColor::from_index(0).to_index(), 0);
    assert_eq!(BitColor::from_index(7).to_index(), 7);
    for i in 0..8 {
        let c = BitColor::from_index(i);
        assert_eq!(BitColor::from_components(c.to_components()).to_index(), i);
    }
    let red = BitColor::Red;
    let yellow = BitColor::Yellow;
    assert!(red.has_color(yellow));
    assert_eq!(BitColor::from_components(red.give_color(BitColor::Blue)), BitColor::Magenta);
    assert_eq!(BitColor::from_components(yellow.take_color(red)), BitColor::Green);
    assert_eq!(BitColor::from_components(yellow.xor_color(red)), BitColor::Green);
    assert_eq!(BitColor::from_components(red.eq_color(red)), BitColor::White);
    assert_eq!(
        BitColor::from_float_color(grey(UN_ONE / 2)),
        BitColor::White
    );
    assert_eq!(
        BitColor::from_byte_color(ByteColor { r: 126, g: 127, b: 255, a: 0 }),
        BitColor::Cyan
    );
}

#[test]
fn color_conversions() {
    let c = ByteColor::from_float_color(grey(UN_ONE));
    assert_eq!((c.r, c.g, c.b, c.a), (255, 255, 255, 255));
    let f = FloatColor::from_byte_color(ByteColor { r: 128, g: 0, b: 255, a: 64 });
    assert_eq!(f.r.into_inner(), 128 * 512);
    assert_eq!(f.a.into_inner(), 64 * 512);
    let n = NibbleColor::from_float_color(grey(UN_ONE));
    assert_eq!(n.r.into_inner(), 0);
    let n2 = NibbleColor::from_float_color(grey(UN_ONE - 1));
    assert_eq!(n2.r.into_inner(), 15);
}
