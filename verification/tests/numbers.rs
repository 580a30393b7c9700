use holo::extent::NAN_BITS;
use holo::geometry::Extents;
use holo::path::ONE_BITS;
use holo::scalar::{Scalar, INFINITY_BITS, SIGN_BIT};
use holo::scriber::{MARGIN_BITS, STROKE_WIDTH_BITS};
use holo::visualizer::{
    CIRCLE_STROKE_WIDTH_BITS, DEFAULT_SIDE_PX_BITS, HOLO_STROKE_WIDTH_BITS, HOLO_WIDTH_DEG_BITS,
};

fn s(value: f32) -> Scalar {
    Scalar::from_bits(value.to_bits())
}

fn samples() -> Vec<f32> {
    vec![
        0.0,
        -0.0,
        1.0,
        -1.0,
        0.5,
        -0.5,
        3.5,
        -1.2759765,
        2.551953,
        f32::MIN_POSITIVE,
        -f32::MIN_POSITIVE,
        1e-45,
        -1e-45,
        f32::MAX,
        f32::MIN,
        f32::INFINITY,
        f32::NEG_INFINITY,
        f32::NAN,
        -f32::NAN,
        f32::from_bits(0x7f80_0001),
        f32::from_bits(0xffff_ffff),
    ]
}

#[test]
fn named_numbers_have_their_bits() {
    assert_eq!(1.0f32.to_bits(), ONE_BITS);
    assert_eq!(0.005f32.to_bits(), STROKE_WIDTH_BITS);
    assert_eq!(0.25f32.to_bits(), MARGIN_BITS);
    assert_eq!(3.5f32.to_bits(), HOLO_WIDTH_DEG_BITS);
    assert_eq!(500f32.to_bits(), DEFAULT_SIDE_PX_BITS);
    assert_eq!(0.005f32.to_bits(), HOLO_STROKE_WIDTH_BITS);
    assert_eq!(0.0001f32.to_bits(), CIRCLE_STROKE_WIDTH_BITS);
    assert_eq!(f32::INFINITY.to_bits(), INFINITY_BITS);
    assert_eq!((-0.0f32).to_bits(), SIGN_BIT);
    assert!(f32::from_bits(NAN_BITS).is_nan());
    assert_eq!(Scalar::zero().to_bits(), 0.0f32.to_bits());
}

#[test]
fn classification_agrees_with_the_numbers() {
    for v in samples() {
        assert_eq!(s(v).not_a_number(), v.is_nan(), "{v}");
        assert_eq!(s(v).zero_valued(), v == 0.0, "{v}");
        assert_eq!(s(v).positive(), v > 0.0, "{v}");
        assert_eq!(s(v).sign(), v.is_sign_negative(), "{v}");
        assert_eq!(s(v).abs_bits(), v.abs().to_bits(), "{v}");
    }
}

#[test]
fn comparison_agrees_with_the_numbers() {
    for a in samples() {
        for b in samples() {
            assert_eq!(s(a).less_than(s(b)), a < b, "{a} < {b}");
            assert_eq!(s(a).at_most(s(b)), a <= b, "{a} <= {b}");
            assert_eq!(s(a).equals(s(b)), a == b, "{a} == {b}");
        }
    }
}

#[test]
fn negation_agrees_with_the_numbers() {
    for v in samples() {
        assert_eq!(s(v).neg().to_bits(), (-v).to_bits(), "{v}");
    }
    assert_eq!(s(1.5).neg(), s(-1.5));
}

#[test]
fn least_and_greatest_agree_with_the_numbers() {
    for a in samples() {
        for b in samples() {
            let least = f32::from_bits(s(a).min(s(b)).to_bits());
            let greatest = f32::from_bits(s(a).max(s(b)).to_bits());
            if a.is_nan() && b.is_nan() {
                assert!(least.is_nan() && greatest.is_nan());
            } else {
                assert_eq!(least, a.min(b), "min({a}, {b})");
                assert_eq!(greatest, a.max(b), "max({a}, {b})");
            }
        }
    }
    assert_eq!(s(2.0).min(s(-3.0)), s(-3.0));
    assert_eq!(s(2.0).max(s(-3.0)), s(2.0));
    assert_eq!(s(f32::NAN).min(s(7.0)), s(7.0));
    assert_eq!(s(7.0).max(s(f32::NAN)), s(7.0));
}

#[test]
fn order_key_orders_as_the_numbers() {
    assert_eq!(s(0.0).order_key(), 0);
    assert_eq!(s(-0.0).order_key(), 0);
    assert_eq!(s(1.0).order_key(), 0x3f80_0000);
    assert_eq!(s(-1.0).order_key(), -0x3f80_0000);
    assert!(s(-2.0).order_key() < s(-1.0).order_key());
    assert!(s(1.0).order_key() < s(f32::INFINITY).order_key());
}

#[test]
fn extents_from_numbers() {
    let numbers = vec![s(-10.), s(-20.), s(300.), s(100.), s(7.)];
    let extents = Extents::from_vec(&numbers).unwrap();
    assert_eq!(extents.as_tuple(), (s(-10.), s(-20.), s(300.), s(100.)));
    assert_eq!(Extents::from_vec(&vec![s(1.), s(2.), s(3.)]), None);
    assert_eq!(Extents::from_vec(&vec![]), None);
}
