use fast_fp::{ff64, MaybePoison};

#[test]
fn container_construction_is_total() {
    // Every bit pattern is a valid "maybe poison" value.
    for bits in [0u64, 1, u64::MAX, f64::NAN.to_bits(), f64::INFINITY.to_bits()] {
        let p = MaybePoison::new(bits);
        assert_eq!(p.maybe_poison(), bits);
    }
}

#[test]
fn container_copies_preserve_the_value() {
    let p = MaybePoison::new(7u64);
    let q = p;
    let r = p.clone();
    assert_eq!(q.maybe_poison(), 7);
    assert_eq!(r.maybe_poison(), 7);
}

#[test]
fn freeze_pins_the_stored_bits() {
    // Freezing reads the container through the optimizer barrier; the result
    // is the stored bits, stable across repeated freezes.
    let v = ff64(0x7FF0_0000_0000_0001); // a signaling NaN pattern
    let first = v.freeze_raw();
    let second = v.freeze_raw();
    assert_eq!(first, 0x7FF0_0000_0000_0001);
    assert_eq!(first, second);
}
