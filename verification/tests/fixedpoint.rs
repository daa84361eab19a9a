use breakout_common::fixedpoint::FixedPoint;
use breakout_common::fixedpoint::EXPONENT;

fn i(int: i8) -> FixedPoint {
    FixedPoint::new_integer(int)
}

#[test]
fn test_add() {
    assert_eq!(i(0) + i(0), i(0));
    assert_eq!(i(4) + i(3), i(7));
    assert_eq!(i(23) + i(42), i(65));
}

#[test]
fn test_sub() {
    assert_eq!(i(0) - i(0), i(0));
    assert_eq!(i(7) - i(3), i(4));
    assert_eq!(i(4) - i(3), i(1));
    assert_eq!(i(3) - i(4), i(-1));
    assert_eq!(i(23) - i(42), i(-19));
}

#[test]
fn test_mul() {
    assert_eq!(i(0) * i(0), i(0));
    assert_eq!(i(7) * i(3), i(21));
    assert_eq!(i(4) * i(3), i(12));
    assert_eq!(i(4) * i(-3), i(-12));
    assert_eq!(i(-4) * i(3), i(-12));
    assert_eq!(i(-4) * i(-3), i(12));
}

#[test]
fn test_div() {
    assert_eq!(i(4) / i(2), i(2));
    assert_eq!(i(10) / i(2), i(5));
    assert_eq!(i(32) / i(8), i(4));

    assert!(!(i(4) / i(8)).is_integer());
    assert_eq!((i(4) / i(8)) * i(2), i(1));
}

#[test]
fn constructors_scale_and_keep_raw_words() {
    assert_eq!(EXPONENT, 8);
    assert_eq!(i(1).as_raw(), 256);
    assert_eq!(i(-1).as_raw(), -256);
    assert_eq!(i(127).as_raw(), 32512);
    assert_eq!(i(-128).as_raw(), -32768);
    assert_eq!(FixedPoint::new_raw(0x1234).as_raw(), 0x1234);
    assert_eq!(FixedPoint::new_raw(-1).as_raw(), -1);
    assert_eq!(FixedPoint::zero().as_raw(), 0);
    assert_eq!(FixedPoint::one().as_raw(), 256);
    assert_eq!(FixedPoint::one(), i(1));
    assert_eq!(FixedPoint::default(), FixedPoint::zero());
}

#[test]
fn addition_and_subtraction_wrap() {
    assert_eq!((FixedPoint::new_raw(i16::MAX) + FixedPoint::new_raw(1)).as_raw(), i16::MIN);
    assert_eq!((FixedPoint::new_raw(i16::MIN) - FixedPoint::new_raw(1)).as_raw(), i16::MAX);
    assert_eq!((i(100) + i(100)).as_raw(), -14336);
    // the difference of two integers is taken in eight-bit two's complement
    assert_eq!(i(127) - i(-128), i(-1));
    assert_eq!(i(-128) - i(1), i(127));
}

#[test]
fn negation_wraps_at_the_most_negative_word() {
    assert_eq!((-i(3)), i(-3));
    assert_eq!((-FixedPoint::new_raw(1)).as_raw(), -1);
    assert_eq!((-FixedPoint::zero()).as_raw(), 0);
    assert_eq!((-FixedPoint::new_raw(i16::MIN)).as_raw(), i16::MIN);
}

#[test]
fn multiplication_truncates_and_wraps() {
    // 0.5 * 0.5 = 0.25
    assert_eq!((FixedPoint::new_raw(128) * FixedPoint::new_raw(128)).as_raw(), 64);
    // one 256th times one 256th is lost entirely
    assert_eq!((FixedPoint::new_raw(1) * FixedPoint::new_raw(1)).as_raw(), 0);
    // the lost bits are dropped toward negative infinity, not toward zero
    assert_eq!((FixedPoint::new_raw(-1) * FixedPoint::new_raw(1)).as_raw(), -1);
    assert_eq!((FixedPoint::new_raw(-3) * FixedPoint::new_raw(128)).as_raw(), -2);
    // 16 * 16 = 256 does not fit: the low sixteen bits remain
    assert_eq!((i(16) * i(16)).as_raw(), 0);
    assert_eq!((i(12) * i(12)).as_raw(), -28672);
    assert_eq!((FixedPoint::new_raw(i16::MIN) * FixedPoint::new_raw(i16::MIN)).as_raw(), 0);
}

#[test]
fn division_scales_first_and_truncates_toward_zero() {
    assert_eq!((i(4) / i(8)).as_raw(), 128);
    assert_eq!((i(1) / i(3)).as_raw(), 85);
    assert_eq!((i(-1) / i(3)).as_raw(), -85);
    assert_eq!((i(1) / i(-3)).as_raw(), -85);
    assert_eq!((i(-1) / i(-3)).as_raw(), 85);
    assert_eq!((FixedPoint::zero() / i(5)).as_raw(), 0);
    // 100 / (1/256) = 25600 does not fit: the low sixteen bits remain
    assert_eq!((i(100) / FixedPoint::new_raw(1)).as_raw(), 0);
    assert_eq!((i(1) / FixedPoint::new_raw(1)).as_raw(), 0);
    assert_eq!((FixedPoint::new_raw(128) / FixedPoint::new_raw(1)).as_raw(), i16::MIN);
}

#[test]
fn as_integer_rounds_toward_negative_infinity() {
    assert_eq!(FixedPoint::new_raw(0x0180).as_integer(), 1);
    assert_eq!(FixedPoint::new_raw(255).as_integer(), 0);
    assert_eq!(FixedPoint::new_raw(-1).as_integer(), -1);
    assert_eq!(FixedPoint::new_raw(-256).as_integer(), -1);
    assert_eq!(FixedPoint::new_raw(-257).as_integer(), -2);
    assert_eq!(FixedPoint::new_raw(i16::MAX).as_integer(), 127);
    assert_eq!(FixedPoint::new_raw(i16::MIN).as_integer(), -128);
}

#[test]
fn is_integer_looks_at_the_fraction_only() {
    assert!(FixedPoint::zero().is_integer());
    assert!(i(-7).is_integer());
    assert!(FixedPoint::new_raw(i16::MIN).is_integer());
    assert!(!FixedPoint::new_raw(1).is_integer());
    assert!(!FixedPoint::new_raw(-1).is_integer());
    assert!(!FixedPoint::new_raw(0x0180).is_integer());
}

#[test]
fn integers_round_trip() {
    for n in i8::MIN..=i8::MAX {
        let v = i(n);
        assert!(v.is_integer());
        assert_eq!(v.as_integer(), n);
    }
}

#[test]
fn integer_sums_and_products_in_range_are_exact() {
    for a in -12i8..=12 {
        for b in -10i8..=10 {
            assert_eq!(i(a) + i(b), i(a + b));
            assert_eq!(i(a) - i(b), i(a - b));
            assert_eq!(i(a) * i(b), i(a * b));
        }
    }
}

#[test]
fn ordering_follows_the_raw_word() {
    assert!(i(-1) < FixedPoint::zero());
    assert!(FixedPoint::new_raw(1) > FixedPoint::zero());
    assert!(i(3) >= i(3));
    assert!(i(3) <= i(3));
    assert!(FixedPoint::new_raw(i16::MIN) < FixedPoint::new_raw(i16::MAX));
    assert_eq!(i(2).partial_cmp(&i(5)), Some(std::cmp::Ordering::Less));
    assert_eq!(i(5).partial_cmp(&i(2)), Some(std::cmp::Ordering::Greater));
    assert_eq!(i(5).partial_cmp(&i(5)), Some(std::cmp::Ordering::Equal));
    assert_eq!(i(2).cmp(&i(5)), std::cmp::Ordering::Less);
    assert_eq!(i(4).max(i(-4)), i(4));
    assert_ne!(i(4), i(-4));
}

#[test]
fn assigning_operators_match_the_plain_ones() {
    let mut v = i(6);
    v += i(2);
    assert_eq!(v, i(8));
    v -= i(3);
    assert_eq!(v, i(5));
    v *= i(4);
    assert_eq!(v, i(20));
    v /= i(8);
    assert_eq!(v.as_raw(), 640);
}
