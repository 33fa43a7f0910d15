use kira::{Mix, Panning, HALF, SCALE};

fn to_fixed(v: f64) -> Option<i64> {
    if v.is_nan() || v.is_infinite() {
        None
    } else {
        Some((v * SCALE as f64).round() as i64)
    }
}

#[test]
fn panning_constants() {
    assert_eq!(Panning::left().raw, -SCALE);
    assert_eq!(Panning::center().raw, 0);
    assert_eq!(Panning::right().raw, SCALE);
    assert_eq!(Panning::default(), Panning::center());
}

#[test]
fn panning_new_clamps() {
    assert_eq!(Panning::new(10 * SCALE), Panning::right());
    assert_eq!(Panning::new(-10 * SCALE), Panning::left());
    assert_eq!(Panning::new(123).raw, 123);
}

#[test]
fn saturating_ops_stay_in_range() {
    // Saturation at both ends of the interval.
    assert_eq!(Panning::right().saturating_add(1), Panning::right());
    assert_eq!(Panning::left().saturating_sub(5), Panning::left());
    assert_eq!(Panning::right().saturating_add(i64::MAX), Panning::right());
    assert_eq!(Panning::left().saturating_sub(i64::MAX), Panning::left());
    // Exact values away from the ends.
    assert_eq!(Panning::new(100).saturating_add(23).raw, 123);
    assert_eq!(Panning::new(100).saturating_sub(23).raw, 77);
}

#[test]
fn saturating_mul_div_rem_neg() {
    // HALF * 2.0 (raw 8192) saturates to the right end.
    assert_eq!(Panning::new(HALF).saturating_mul(2 * SCALE), Panning::right());
    // HALF * 0.5 is a quarter.
    assert_eq!(Panning::new(HALF).saturating_mul(HALF).raw, 1024);
    // HALF / 0.25 saturates to the right end.
    assert_eq!(Panning::new(HALF).saturating_div(1024), Panning::right());
    // HALF / 2.0 is a quarter.
    assert_eq!(Panning::new(HALF).saturating_div(2 * SCALE).raw, 1024);
    // Remainder keeps the dividend's sign and magnitude below the divisor.
    assert_eq!(Panning::new(3000).saturating_rem(1024).raw, 952);
    assert_eq!(Panning::new(-3000).saturating_rem(1024).raw, -952);
    // Negation mirrors about the center.
    assert_eq!(Panning::new(-1234).saturating_neg().raw, 1234);
    assert_eq!(Panning::left().saturating_neg(), Panning::right());
}

#[test]
fn mix_saturating_ops_stay_in_range() {
    assert_eq!(Mix::wet().saturating_add(1), Mix::wet());
    assert_eq!(Mix::dry().saturating_sub(100), Mix::dry());
    // Negation clamps at the dry end for any positive mix.
    assert_eq!(Mix::new(5).saturating_neg(), Mix::dry());
    assert_eq!(Mix::dry().saturating_neg(), Mix::dry());
    assert_eq!(Mix::new(HALF).saturating_mul(HALF).raw, 1024);
    assert_eq!(Mix::new(100).saturating_rem(30).raw, 10);
}

#[test]
fn interpolate_endpoints() {
    let a = Panning::new(-1000);
    let b = Panning::new(3000);
    assert_eq!(Panning::interpolate(a, b, 0), a);
    assert_eq!(Panning::interpolate(a, b, SCALE), b);
    let c = Mix::new(10);
    let d = Mix::new(4000);
    assert_eq!(Mix::interpolate(c, d, 0), c);
    assert_eq!(Mix::interpolate(c, d, SCALE), d);
}

#[test]
fn interpolate_midpoint() {
    let mid = Panning::interpolate(Panning::left(), Panning::right(), HALF);
    assert_eq!(mid, Panning::center());
    let m = Mix::interpolate(Mix::dry(), Mix::wet(), HALF);
    assert_eq!(m.raw, HALF);
}

#[test]
fn validated_rejects_out_of_range() {
    assert!(Panning::validated(SCALE + 1).is_err());
    assert!(Panning::validated(-SCALE - 1).is_err());
    assert!(Panning::validated(SCALE).is_ok());
    assert!(Panning::validated(-SCALE).is_ok());
    let err = Panning::validated(9999).unwrap_err();
    assert_eq!(err.raw, 9999);
    assert_eq!(err.lo, -SCALE);
    assert_eq!(err.hi, SCALE);
    let err = Mix::validated(-1).unwrap_err();
    assert_eq!(err.lo, 0);
    assert_eq!(err.hi, SCALE);
}

#[test]
fn deserialized_mix_values_are_validated() {
    // In-range values parse and validate.
    for (text, raw) in [("0.0", 0), ("0.5", HALF), ("1.0", SCALE)] {
        let v: f64 = serde_json::from_str(text).unwrap();
        let fixed = to_fixed(v).unwrap();
        assert_eq!(Mix::validated(fixed).unwrap().raw, raw);
    }
    // Out-of-range values are a validation error, never clamped.
    let v: f64 = serde_json::from_str("1.5").unwrap();
    let fixed = to_fixed(v).unwrap();
    assert!(Mix::validated(fixed).is_err());
    let v: f64 = serde_json::from_str("-2.0").unwrap();
    let fixed = to_fixed(v).unwrap();
    assert!(Mix::validated(fixed).is_err());
    // NaN is not even valid JSON; it is rejected before validation.
    assert!(serde_json::from_str::<f64>("NaN").is_err());
    // A NaN produced locally is rejected by the numeric boundary itself.
    assert!(to_fixed(f64::NAN).is_none());
    assert!(to_fixed(f64::INFINITY).is_none());
}
