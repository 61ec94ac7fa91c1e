use rust_box::volume::clamp;

#[test]
fn clamp_agrees_with_floats() {
    let samples: [f32; 14] = [
        0.0, -0.0, 0.25, 0.5, 1.0, 1.0000001, 2.5, -0.5, -1.0, f32::MAX, f32::MIN, f32::INFINITY, f32::NEG_INFINITY,
        f32::MIN_POSITIVE,
    ];
    for sample in samples {
        assert_eq!(clamp(sample.to_bits()), sample.clamp(0.0, 1.0).to_bits());
    }
    assert!(f32::from_bits(clamp(f32::NAN.to_bits())).is_nan());
    assert!(f32::from_bits(clamp((-f32::NAN).to_bits())).is_nan());
}

#[test]
fn clamp_settles_and_keeps_order() {
    let low = clamp((-3.0f32).to_bits());
    let high = clamp(7.0f32.to_bits());
    assert_eq!(f32::from_bits(low), 0.0);
    assert_eq!(f32::from_bits(high), 1.0);
    assert_eq!(clamp(high), high);
    assert_eq!(clamp(0.3f32.to_bits()), 0.3f32.to_bits());
}
