use rust_numpy_ext::order::{le_bits, lt_bits, nan_bits};

#[test]
fn numeric_values_order_by_value() {
    assert!(le_bits((1.0f64).to_bits(), (2.0f64).to_bits()));
    assert!(!le_bits((2.0f64).to_bits(), (1.0f64).to_bits()));
    assert!(le_bits((-3.5f64).to_bits(), (-1.0f64).to_bits()));
    assert!(le_bits((-1.0f64).to_bits(), (0.5f64).to_bits()));
    assert!(le_bits((7.0f64).to_bits(), (7.0f64).to_bits()));
}

#[test]
fn infinities_bound_the_numeric_values() {
    assert!(le_bits(f64::NEG_INFINITY.to_bits(), f64::MIN.to_bits()));
    assert!(le_bits(f64::MAX.to_bits(), f64::INFINITY.to_bits()));
    assert!(!le_bits(f64::INFINITY.to_bits(), f64::MAX.to_bits()));
}

#[test]
fn not_a_number_is_greatest() {
    let nan = f64::NAN.to_bits();
    assert!(le_bits(f64::INFINITY.to_bits(), nan));
    assert!(le_bits((5.0f64).to_bits(), nan));
    assert!(!le_bits(nan, (5.0f64).to_bits()));
    assert!(le_bits(nan, nan));
    assert!(!lt_bits(nan, nan));
}

#[test]
fn negative_zero_ranks_below_positive_zero() {
    assert!(lt_bits((-0.0f64).to_bits(), (0.0f64).to_bits()));
    assert!(!lt_bits((0.0f64).to_bits(), (-0.0f64).to_bits()));
}

#[test]
fn nan_bits_recognises_not_a_number_encodings() {
    assert!(nan_bits(f64::NAN.to_bits()));
    assert!(nan_bits((0.0f64 / 0.0f64).to_bits()));
    assert!(!nan_bits(f64::INFINITY.to_bits()));
    assert!(!nan_bits(f64::NEG_INFINITY.to_bits()));
    assert!(!nan_bits((1.0f64).to_bits()));
    assert!(!nan_bits((0.0f64).to_bits()));
}

#[test]
fn strict_order_is_irreflexive() {
    let b = (2.5f64).to_bits();
    assert!(!lt_bits(b, b));
    assert!(lt_bits((2.0f64).to_bits(), b));
}
