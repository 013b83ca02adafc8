use marl_engine_native::ieee::{bits_float_eq, bits_is_finite, bits_is_normal, bits_is_zero, bits_lt};

fn b(v: f32) -> u32 {
    v.to_bits()
}

#[test]
fn ordering_matches_float_comparison() {
    let values = [-3.5f32, -1.0, -0.0, 0.0, 1e-40, 0.1, 1.0, 10.0, 3.0e38, f32::INFINITY, f32::NEG_INFINITY];
    for &x in &values {
        for &y in &values {
            assert_eq!(bits_lt(b(x), b(y)), x < y, "{} < {}", x, y);
            assert_eq!(bits_float_eq(b(x), b(y)), x == y, "{} == {}", x, y);
        }
    }
    assert!(!bits_float_eq(b(f32::NAN), b(f32::NAN)));
}

#[test]
fn classification_matches_float_predicates() {
    let values = [0.0f32, -0.0, 1e-40, -1e-45, 1.0, f32::MAX, f32::INFINITY, f32::NAN];
    for &x in &values {
        assert_eq!(bits_is_finite(b(x)), x.is_finite());
        assert_eq!(bits_is_normal(b(x)), x.is_normal());
        assert_eq!(bits_is_zero(b(x)), x == 0.0);
    }
}
