use fast_fp::{ff32, FpCategory, FF32};

#[test]
fn sum_scenario_yields_three_single_precision() {
    let a = ff32(4.0f32.to_bits());
    let b = ff32(1.0f32.to_bits());
    let c = ff32((-2.0f32).to_bits());
    assert_eq!(a.add(b).add(c).freeze_raw(), 3.0f32.to_bits());

    let values = vec![a, b, c];
    assert_eq!(FF32::sum(&values).freeze_raw(), 3.0f32.to_bits());
}

#[test]
fn new_checked_boundary_single_precision() {
    assert!(FF32::new_checked(f32::INFINITY.to_bits()).is_err());
    assert!(FF32::new_checked(f32::NEG_INFINITY.to_bits()).is_err());
    assert!(FF32::new_checked(f32::NAN.to_bits()).is_err());
    for x in [0.0f32, -0.0, 1.5, -1.5, f32::MAX, f32::MIN, 1e-45] {
        let v = FF32::new_checked(x.to_bits()).unwrap();
        assert_eq!(v.freeze_raw(), x.to_bits());
    }
}

#[test]
fn arithmetic_agrees_with_native_single_precision() {
    let values = [-987.125f32, -2.5, -0.0, 0.0, 0.1, 1.0, 2.5, 3.75e10];
    for &a in &values {
        for &b in &values {
            let x = ff32(a.to_bits());
            let y = ff32(b.to_bits());
            assert_eq!(x.add(y).freeze_raw(), (a + b).to_bits(), "{a} + {b}");
            assert_eq!(x.sub(y).freeze_raw(), (a - b).to_bits(), "{a} - {b}");
            assert_eq!(x.mul(y).freeze_raw(), (a * b).to_bits(), "{a} * {b}");
            if b != 0.0 {
                assert_eq!(x.div(y).freeze_raw(), (a / b).to_bits(), "{a} / {b}");
                assert_eq!(x.rem(y).freeze_raw(), (a % b).to_bits(), "{a} % {b}");
            }
        }
    }
}

#[test]
fn bitwise_ops_match_native_single_precision() {
    let values = [-2.5f32, -0.0, 0.0, 1.0, f32::MAX, f32::INFINITY, 1e-45];
    for &a in &values {
        let x = ff32(a.to_bits());
        assert_eq!(x.abs().freeze_raw(), a.abs().to_bits());
        assert_eq!(x.neg().freeze_raw(), (-a).to_bits());
        for &b in &values {
            let y = ff32(b.to_bits());
            assert_eq!(x.copysign(y).freeze_raw(), a.copysign(b).to_bits());
        }
    }
}

#[test]
fn order_is_total_single_precision() {
    let values = [f32::MIN, -1.0, -0.0, 0.0, 1e-45, 1.0, f32::MAX];
    for &a in &values {
        for &b in &values {
            let x = ff32(a.to_bits());
            let y = ff32(b.to_bits());
            let lt = x < y;
            let eq = x == y;
            let gt = x > y;
            assert_eq!((lt as u32) + (eq as u32) + (gt as u32), 1);
            assert_eq!(lt, a < b);
            assert_eq!(eq, a == b);
            assert_eq!(gt, a > b);
        }
    }
}

#[test]
fn classify_masks_invalid_categories_single_precision() {
    assert_eq!(ff32(1.5f32.to_bits()).classify(), FpCategory::Normal);
    assert_eq!(ff32(0.0f32.to_bits()).classify(), FpCategory::Zero);
    assert_eq!(ff32(1e-45f32.to_bits()).classify(), FpCategory::Subnormal);
    assert_eq!(ff32(f32::INFINITY.to_bits()).classify(), FpCategory::Normal);
    assert_eq!(ff32(f32::NAN.to_bits()).classify(), FpCategory::Normal);
}

#[test]
fn every_bit_pattern_is_safe_single_precision() {
    let patterns: Vec<u32> = vec![
        0.0f32.to_bits(),
        (-0.0f32).to_bits(),
        1.0f32.to_bits(),
        f32::MAX.to_bits(),
        f32::INFINITY.to_bits(),
        f32::NEG_INFINITY.to_bits(),
        f32::NAN.to_bits(),
        0x7F80_0001, // signaling NaN
        0xFFC0_1234,
        0x0012_3456,
    ];
    for &a in &patterns {
        for &b in &patterns {
            let x = ff32(a);
            let y = ff32(b);
            for v in [
                x.add(y),
                x.sub(y),
                x.mul(y),
                x.div(y),
                x.rem(y),
                x.neg(),
                x.abs(),
                x.copysign(y),
                x.min(y),
                x.max(y),
            ] {
                let c = v.classify();
                assert!(c != FpCategory::Nan);
                assert!(c != FpCategory::Infinite);
            }
        }
    }
}

#[test]
fn mul_add_agrees_with_native_fma_single_precision() {
    let r = ff32(1.5f32.to_bits()).mul_add(ff32(2.5f32.to_bits()), ff32((-0.75f32).to_bits()));
    assert_eq!(r.freeze_raw(), 1.5f32.mul_add(2.5, -0.75).to_bits());
}

#[test]
fn constants_hold_the_named_values_single_precision() {
    assert_eq!(FF32::zero().freeze_raw(), 0.0f32.to_bits());
    assert_eq!(FF32::one().freeze_raw(), 1.0f32.to_bits());
    assert_eq!(FF32::max_value().freeze_raw(), f32::MAX.to_bits());
    assert_eq!(FF32::min_value().freeze_raw(), f32::MIN.to_bits());
    assert_eq!(FF32::min_positive().freeze_raw(), f32::MIN_POSITIVE.to_bits());
}
