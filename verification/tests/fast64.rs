use fast_fp::{ff64, FpCategory, FF64, InvalidValueError};
use std::cmp::Ordering;

#[test]
fn sum_scenario_yields_three() {
    let a = ff64(4.0f64.to_bits());
    let b = ff64(1.0f64.to_bits());
    let c = ff64((-2.0f64).to_bits());
    let total = a.add(b).add(c);
    assert_eq!(total.freeze_raw(), 3.0f64.to_bits());

    let values = vec![a, b, c];
    let total = FF64::sum(&values);
    assert_eq!(total.freeze_raw(), 3.0f64.to_bits());
}

#[test]
fn sum_of_empty_slice_is_zero() {
    let values: Vec<FF64> = vec![];
    assert_eq!(FF64::sum(&values).freeze_raw(), 0.0f64.to_bits());
}

#[test]
fn product_folds_multiplication() {
    let values = vec![
        ff64(1.5f64.to_bits()),
        ff64(2.0f64.to_bits()),
        ff64(4.0f64.to_bits()),
    ];
    assert_eq!(FF64::product(&values).freeze_raw(), 12.0f64.to_bits());

    let empty: Vec<FF64> = vec![];
    assert_eq!(FF64::product(&empty).freeze_raw(), 1.0f64.to_bits());
}

#[test]
fn new_checked_rejects_exactly_the_invalid_values() {
    assert!(FF64::new_checked(f64::INFINITY.to_bits()).is_err());
    assert!(FF64::new_checked(f64::NEG_INFINITY.to_bits()).is_err());
    assert!(FF64::new_checked(f64::NAN.to_bits()).is_err());
    // A NaN with a different payload and sign is still rejected.
    assert!(FF64::new_checked(0xFFF8_0000_0000_1234).is_err());

    for x in [
        0.0f64,
        -0.0,
        1.5,
        -1.5,
        f64::MAX,
        f64::MIN,
        f64::MIN_POSITIVE,
        5e-324, // smallest subnormal
        std::f64::consts::PI,
    ] {
        let v = FF64::new_checked(x.to_bits()).unwrap();
        // The frozen form of an accepted value is the value itself, exactly.
        assert_eq!(v.freeze_raw(), x.to_bits());
    }
}

#[test]
fn checked_constructor_scenario() {
    let err = FF64::new_checked(f64::INFINITY.to_bits());
    assert!(err == Err(InvalidValueError {}));
    let ok = FF64::new_checked(1.5f64.to_bits()).unwrap();
    assert_eq!(ok.freeze_raw(), 1.5f64.to_bits());
}

#[test]
fn invalid_value_error_message() {
    let e = InvalidValueError {};
    assert_eq!(e.message(), "value may not be infinite or NaN");
    assert_eq!(e.clone(), e);
}

#[test]
fn freeze_is_idempotent() {
    for bits in interesting_bit_patterns() {
        let v = ff64(bits);
        let first = v.freeze_raw();
        let second = v.freeze_raw();
        assert_eq!(first, second);
        // Re-wrapping the frozen bits and freezing again changes nothing.
        assert_eq!(ff64(first).freeze_raw(), first);
    }
}

#[test]
fn every_bit_pattern_is_safe() {
    // Arbitrary bit patterns — signaling NaN, infinities, subnormals — may
    // flow through every operation without a crash, and classification
    // never reports an invalid category.
    let patterns = interesting_bit_patterns();
    for &a in &patterns {
        for &b in &patterns {
            let x = ff64(a);
            let y = ff64(b);
            for v in [
                x.add(y),
                x.sub(y),
                x.mul(y),
                x.div(y),
                x.rem(y),
                x.neg(),
                x.abs(),
                x.copysign(y),
                x.min(y),
                x.max(y),
                x.mul_add(y, x),
            ] {
                let c = v.classify();
                assert!(c != FpCategory::Nan);
                assert!(c != FpCategory::Infinite);
            }
            let _ = x.cmp(y);
            let _ = x == y;
            let _ = x < y;
            let _ = x.is_sign_negative();
            let _ = x.is_sign_positive();
            let _ = x.is_normal();
            let _ = x.is_subnormal();
        }
    }
}

#[test]
fn order_is_total_on_finite_values() {
    let values = [
        f64::MIN,
        -2.5,
        -1.0,
        -5e-324,
        -0.0,
        0.0,
        5e-324,
        1.0,
        2.5,
        f64::MAX,
    ];
    for (i, &a) in values.iter().enumerate() {
        for (j, &b) in values.iter().enumerate() {
            let x = ff64(a.to_bits());
            let y = ff64(b.to_bits());
            let lt = x < y;
            let eq = x == y;
            let gt = x > y;
            // Exactly one of the three relations holds.
            assert_eq!(
                (lt as u32) + (eq as u32) + (gt as u32),
                1,
                "a={a}, b={b}"
            );
            // And they agree with the native order.
            assert_eq!(lt, a < b);
            assert_eq!(eq, a == b);
            assert_eq!(gt, a > b);
            assert_eq!(x <= y, a <= b);
            assert_eq!(x >= y, a >= b);
            let _ = (i, j);
        }
    }
    // A transitivity sample.
    let small = ff64((-7.25f64).to_bits());
    let mid = ff64(0.0f64.to_bits());
    let large = ff64(9.5f64.to_bits());
    assert!(small < mid && mid < large && small < large);
}

#[test]
fn cmp_orders_frozen_values() {
    let one = ff64(1.0f64.to_bits());
    let two = ff64(2.0f64.to_bits());
    assert_eq!(one.cmp(two), Ordering::Less);
    assert_eq!(two.cmp(one), Ordering::Greater);
    assert_eq!(one.cmp(one), Ordering::Equal);
    // The two zeros are numerically equal.
    let pz = ff64(0.0f64.to_bits());
    let nz = ff64((-0.0f64).to_bits());
    assert_eq!(pz.cmp(nz), Ordering::Equal);
    assert!(pz == nz);
}

#[test]
fn arithmetic_agrees_with_native_on_safe_inputs() {
    let values = [
        -987.125,
        -2.5,
        -1.0,
        -0.0,
        0.0,
        0.1,
        1.0,
        2.5,
        3.75e10,
        5e-324,
        std::f64::consts::E,
    ];
    for &a in &values {
        for &b in &values {
            let x = ff64(a.to_bits());
            let y = ff64(b.to_bits());
            assert_eq!(x.add(y).freeze_raw(), (a + b).to_bits(), "{a} + {b}");
            assert_eq!(x.sub(y).freeze_raw(), (a - b).to_bits(), "{a} - {b}");
            assert_eq!(x.mul(y).freeze_raw(), (a * b).to_bits(), "{a} * {b}");
            if b != 0.0 {
                assert_eq!(x.div(y).freeze_raw(), (a / b).to_bits(), "{a} / {b}");
                assert_eq!(x.rem(y).freeze_raw(), (a % b).to_bits(), "{a} % {b}");
            }
        }
    }
    // A short chain of additions agrees with the native strict fold exactly:
    // the backend rounds to nearest-even, as the native operations do.
    let chain = [0.1f64, 0.2, 0.3, 0.4, 0.5, 0.6, 0.7, 0.8];
    let native = chain.iter().fold(0.0f64, |acc, &v| acc + v);
    let wrapped: Vec<FF64> = chain.iter().map(|v| ff64(v.to_bits())).collect();
    assert_eq!(FF64::sum(&wrapped).freeze_raw(), native.to_bits());
}

#[test]
fn mul_add_agrees_with_native_fma() {
    let triples = [(1.5f64, 2.5f64, -0.75f64), (0.1, 0.2, 0.3), (-3.0, 7.0, 2.0)];
    for &(a, b, c) in &triples {
        let r = ff64(a.to_bits()).mul_add(ff64(b.to_bits()), ff64(c.to_bits()));
        assert_eq!(r.freeze_raw(), a.mul_add(b, c).to_bits());
    }
}

#[test]
fn bitwise_ops_match_native_exactly() {
    let values = [
        f64::MIN,
        -2.5,
        -1.0,
        -5e-324,
        -0.0,
        0.0,
        5e-324,
        1.0,
        2.5,
        f64::MAX,
        f64::INFINITY,
        f64::NEG_INFINITY,
    ];
    for &a in &values {
        let x = ff64(a.to_bits());
        assert_eq!(x.abs().freeze_raw(), a.abs().to_bits(), "abs {a}");
        assert_eq!(x.neg().freeze_raw(), (-a).to_bits(), "neg {a}");
        for &b in &values {
            let y = ff64(b.to_bits());
            assert_eq!(
                x.copysign(y).freeze_raw(),
                a.copysign(b).to_bits(),
                "copysign {a} {b}"
            );
        }
    }
    // NaN magnitudes go through the masks unchanged as well.
    let nan_bits = 0xFFF8_0000_0000_0001u64;
    assert_eq!(ff64(nan_bits).abs().freeze_raw(), nan_bits & 0x7FFF_FFFF_FFFF_FFFF);
    assert_eq!(ff64(nan_bits).neg().freeze_raw(), nan_bits ^ 0x8000_0000_0000_0000);
}

#[test]
fn min_max_clamp_follow_the_order() {
    let pairs = [(-2.5f64, 1.0f64), (1.0, -2.5), (3.0, 3.0), (-1.0, -7.0)];
    for &(a, b) in &pairs {
        let x = ff64(a.to_bits());
        let y = ff64(b.to_bits());
        assert_eq!(x.min(y).freeze_raw(), a.min(b).to_bits(), "min {a} {b}");
        assert_eq!(x.max(y).freeze_raw(), a.max(b).to_bits(), "max {a} {b}");
    }
    // When neither operand is strictly smaller, the first is returned: the
    // zero pair keeps the first operand's sign.
    let pz = ff64(0.0f64.to_bits());
    let nz = ff64((-0.0f64).to_bits());
    assert_eq!(pz.min(nz).freeze_raw(), 0.0f64.to_bits());
    assert_eq!(nz.min(pz).freeze_raw(), (-0.0f64).to_bits());

    let lo = ff64((-1.0f64).to_bits());
    let hi = ff64(2.0f64.to_bits());
    assert_eq!(
        ff64((-3.5f64).to_bits()).clamp(lo, hi).freeze_raw(),
        (-1.0f64).to_bits()
    );
    assert_eq!(
        ff64(9.25f64.to_bits()).clamp(lo, hi).freeze_raw(),
        2.0f64.to_bits()
    );
    assert_eq!(
        ff64(0.5f64.to_bits()).clamp(lo, hi).freeze_raw(),
        0.5f64.to_bits()
    );
}

#[test]
fn classify_reports_only_valid_categories() {
    assert_eq!(ff64(1.5f64.to_bits()).classify(), FpCategory::Normal);
    assert_eq!(ff64(0.0f64.to_bits()).classify(), FpCategory::Zero);
    assert_eq!(ff64((-0.0f64).to_bits()).classify(), FpCategory::Zero);
    assert_eq!(ff64(5e-324f64.to_bits()).classify(), FpCategory::Subnormal);
    // The invalid categories are masked to Normal.
    assert_eq!(ff64(f64::INFINITY.to_bits()).classify(), FpCategory::Normal);
    assert_eq!(ff64(f64::NAN.to_bits()).classify(), FpCategory::Normal);

    assert!(ff64(1.5f64.to_bits()).is_normal());
    assert!(!ff64(5e-324f64.to_bits()).is_normal());
    assert!(ff64(5e-324f64.to_bits()).is_subnormal());
    assert!(!ff64(1.5f64.to_bits()).is_subnormal());
}

#[test]
fn sign_tests_freeze_and_read_the_sign_bit() {
    assert!(ff64((-1.5f64).to_bits()).is_sign_negative());
    assert!(ff64((-0.0f64).to_bits()).is_sign_negative());
    assert!(ff64(0.0f64.to_bits()).is_sign_positive());
    assert!(ff64(2.5f64.to_bits()).is_sign_positive());
}

#[test]
fn constants_hold_the_named_values() {
    assert_eq!(FF64::zero().freeze_raw(), 0.0f64.to_bits());
    assert_eq!(FF64::one().freeze_raw(), 1.0f64.to_bits());
    assert_eq!(FF64::max_value().freeze_raw(), f64::MAX.to_bits());
    assert_eq!(FF64::min_value().freeze_raw(), f64::MIN.to_bits());
    assert_eq!(FF64::min_positive().freeze_raw(), f64::MIN_POSITIVE.to_bits());
}

#[test]
fn division_by_zero_is_unspecified_but_safe() {
    // 1.0 / 0.0 escapes the valid domain: the result is some value with no
    // numeric meaning, but observing it stays safe.
    let q = ff64(1.0f64.to_bits()).div(ff64(0.0f64.to_bits()));
    let c = q.classify();
    assert!(c != FpCategory::Nan && c != FpCategory::Infinite);
}

fn interesting_bit_patterns() -> Vec<u64> {
    vec![
        0.0f64.to_bits(),
        (-0.0f64).to_bits(),
        1.0f64.to_bits(),
        (-1.0f64).to_bits(),
        f64::MAX.to_bits(),
        f64::MIN.to_bits(),
        f64::MIN_POSITIVE.to_bits(),
        5e-324f64.to_bits(),
        f64::INFINITY.to_bits(),
        f64::NEG_INFINITY.to_bits(),
        f64::NAN.to_bits(),
        0x7FF0_0000_0000_0001, // signaling NaN
        0xFFF8_DEAD_BEEF_0123, // negative NaN with payload
        0x0123_4567_89AB_CDEF,
        0xFEDC_BA98_7654_3210,
    ]
}
