use pathtracer::weight::recip_weight_bits;

#[test]
fn first_four_weights_match_hardware_division() {
    assert_eq!(recip_weight_bits(1), 1.0f32.to_bits());
    assert_eq!(recip_weight_bits(2), 0.5f32.to_bits());
    assert_eq!(recip_weight_bits(3), (1.0f32 / 3.0f32).to_bits());
    assert_eq!(recip_weight_bits(4), 0.25f32.to_bits());
}

#[test]
fn weights_match_hardware_division_up_to_default_budget() {
    for k in 1u32..=1024 {
        assert_eq!(recip_weight_bits(k), (1.0f32 / k as f32).to_bits());
    }
}

#[test]
fn weights_match_hardware_division_for_large_indices() {
    // Every index up to 2^24 is exactly representable in binary32, so the
    // hardware quotient is the correctly rounded 1/k this library computes.
    for k in [4095u32, 65535, 65536, 1_000_003, 16_777_215, 16_777_216] {
        assert_eq!(recip_weight_bits(k), (1.0f32 / k as f32).to_bits());
    }
}
