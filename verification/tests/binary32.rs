use mh_vad::binary32::{INFINITY_BITS, QUIET_NAN_BITS, SIGN_BIT};
use mh_vad::Binary32;

fn enc(x: f32) -> Binary32 {
    Binary32::from_bits(x.to_bits())
}

fn specimens() -> Vec<f32> {
    vec![
        0.0,
        -0.0,
        1.0,
        -1.0,
        0.5,
        -0.5,
        2.0,
        3.0,
        -3.0,
        16000.0,
        f32::MIN_POSITIVE,
        -f32::MIN_POSITIVE,
        f32::from_bits(1),
        f32::from_bits(0x8000_0001),
        f32::MAX,
        f32::MIN,
        f32::INFINITY,
        f32::NEG_INFINITY,
        f32::NAN,
        -f32::NAN,
        f32::from_bits(0x7f80_0001),
        f32::from_bits(0xffff_ffff),
    ]
}

#[test]
fn encoding_round_trips() {
    for x in specimens() {
        let b = Binary32::from_bits(x.to_bits());
        assert_eq!(b.bits, x.to_bits());
        assert_eq!(b.to_bits(), x.to_bits());
    }
}

#[test]
fn constants_are_the_encodings_they_name() {
    assert_eq!(SIGN_BIT, (-0.0f32).to_bits());
    assert_eq!(INFINITY_BITS, f32::INFINITY.to_bits());
    assert!(f32::from_bits(QUIET_NAN_BITS).is_nan());
    assert_eq!(QUIET_NAN_BITS, 0x7fc0_0000);
}

#[test]
fn zero_is_positive_zero() {
    let z = Binary32::zero();
    assert_eq!(z.to_bits(), 0.0f32.to_bits());
    assert!(z.is_zero());
    assert!(!z.is_sign_negative());
    assert!(!z.is_nan());
}

#[test]
fn quiet_nan_is_a_nan() {
    let n = Binary32::quiet_nan();
    assert_eq!(n.to_bits(), 0x7fc0_0000);
    assert!(n.is_nan());
    assert!(f32::from_bits(n.to_bits()).is_nan());
}

#[test]
fn classification_agrees_with_the_hardware() {
    for x in specimens() {
        let b = enc(x);
        assert_eq!(b.is_nan(), x.is_nan(), "is_nan of {:?}", x);
        assert_eq!(b.is_zero(), x == 0.0, "is_zero of {:?}", x);
        assert_eq!(
            b.is_sign_negative(),
            x.is_sign_negative(),
            "is_sign_negative of {:?}",
            x
        );
    }
}

#[test]
fn gt_agrees_with_the_hardware() {
    for x in specimens() {
        for y in specimens() {
            assert_eq!(enc(x).gt(enc(y)), x > y, "{:?} > {:?}", x, y);
        }
    }
}

#[test]
fn gt_on_neighbouring_encodings() {
    let mut bits: u32 = 0;
    while bits < 0x7f80_0000 {
        let lo = f32::from_bits(bits);
        let hi = f32::from_bits(bits + 1);
        assert!(enc(hi).gt(enc(lo)));
        assert!(!enc(lo).gt(enc(hi)));
        assert!(enc(-lo).gt(enc(-hi)));
        assert!(!enc(-hi).gt(enc(-lo)));
        bits += 0x0003_fffd;
    }
}

#[test]
fn gt_treats_the_two_zeros_as_equal() {
    assert!(!enc(0.0).gt(enc(-0.0)));
    assert!(!enc(-0.0).gt(enc(0.0)));
    assert!(enc(0.0) != enc(-0.0));
}

#[test]
fn gt_is_false_beside_a_nan() {
    let nan = enc(f32::NAN);
    for x in specimens() {
        assert!(!nan.gt(enc(x)));
        assert!(!enc(x).gt(nan));
    }
}

#[test]
fn gt_exact_values() {
    assert!(enc(3.0).gt(enc(1.0)));
    assert!(!enc(1.0).gt(enc(3.0)));
    assert!(!enc(1.0).gt(enc(1.0)));
    assert!(enc(-1.0).gt(enc(-3.0)));
    assert!(enc(f32::from_bits(1)).gt(enc(0.0)));
    assert!(enc(-0.0).gt(enc(f32::from_bits(0x8000_0001))));
    assert!(enc(f32::INFINITY).gt(enc(f32::MAX)));
    assert!(enc(f32::MIN).gt(enc(f32::NEG_INFINITY)));
}

#[test]
fn equality_is_equality_of_encodings() {
    assert_eq!(enc(1.5), enc(1.5));
    assert_ne!(enc(1.5), enc(-1.5));
    assert_eq!(enc(f32::NAN), enc(f32::NAN));
}

#[test]
fn abs_agrees_with_the_hardware() {
    for x in specimens() {
        assert_eq!(enc(x).abs().to_bits(), x.abs().to_bits(), "abs of {:?}", x);
    }
}

#[test]
fn abs_exact_values() {
    assert_eq!(enc(-1.5).abs(), enc(1.5));
    assert_eq!(enc(1.5).abs(), enc(1.5));
    assert_eq!(enc(-0.0).abs(), enc(0.0));
    assert_eq!(enc(f32::NEG_INFINITY).abs(), enc(f32::INFINITY));
    assert_eq!(Binary32::from_bits(0xffc0_0000).abs(), Binary32::from_bits(0x7fc0_0000));
}
